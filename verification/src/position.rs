use vstd::prelude::*;

verus! {

/// A pair of document or screen coordinates: a row and a column.
///
/// Depending on context the column counts grapheme clusters (caret
/// coordinates) or rendered terminal cells (screen coordinates).
#[derive(Debug, Clone, Copy, PartialEq, Eq, Structural)]
pub struct Position {
    pub row: usize,
    pub col: usize,
}

impl Default for Position {
    /// The origin: row 0, column 0.
    fn default() -> (p: Self)
        ensures
            p.row == 0,
            p.col == 0,
    {
        Position { row: 0, col: 0 }
    }
}

/// `a - b`, stopping at zero instead of underflowing.
pub open spec fn sat_sub(a: int, b: int) -> int {
    if a >= b {
        a - b
    } else {
        0
    }
}

impl Position {
    /// Component-wise saturating difference; maps a document coordinate
    /// into the viewport by subtracting the scroll offset.
    pub fn substract(&self, other: &Self) -> (p: Self)
        ensures
            p.row == sat_sub(self.row as int, other.row as int),
            p.col == sat_sub(self.col as int, other.col as int),
    {
        Position {
            row: self.row.saturating_sub(other.row),
            col: self.col.saturating_sub(other.col),
        }
    }
}

} // verus!
