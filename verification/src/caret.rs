use crate::buffer::Buffer;
use crate::command::Direction;
use crate::grapheme::GraphemeView;
use vstd::prelude::*;

verus! {

/// The logical caret: a row and a column counted in grapheme clusters
/// (not rendered cells), the single source of truth for where edits
/// happen.
#[derive(Debug, Clone, Copy, PartialEq, Eq, Structural)]
pub struct Caret {
    pub row: usize,
    pub col: usize,
}

impl Default for Caret {
    /// The origin: row 0, cluster 0.
    fn default() -> (c: Self)
        ensures
            c.row == 0,
            c.col == 0,
    {
        Caret { row: 0, col: 0 }
    }
}

/// A caret position addresses the document when its row exists and its
/// column is at most that row's cluster count (the past-the-end column
/// included, as the insertion point).
pub open spec fn caret_valid(lines: Seq<Seq<GraphemeView>>, row: int, col: int) -> bool {
    0 <= row < lines.len() && 0 <= col <= lines[row].len()
}

/// Where one directional move sends a valid caret: rows clamp to
/// `[0, last row]`, columns clamp to the target row's cluster count,
/// `Left` at column 0 wraps to the end of the row above, and `Right` at
/// end of line wraps to column 0 of the row below.
pub open spec fn move_target(
    lines: Seq<Seq<GraphemeView>>,
    row: int,
    col: int,
    d: Direction,
) -> (int, int) {
    match d {
        Direction::Up => {
            let r2 = if row > 0 {
                row - 1
            } else {
                0
            };
            (r2, if col <= lines[r2].len() {
                col
            } else {
                lines[r2].len() as int
            })
        },
        Direction::Down => {
            let r2 = if row + 1 < lines.len() {
                row + 1
            } else {
                row
            };
            (r2, if col <= lines[r2].len() {
                col
            } else {
                lines[r2].len() as int
            })
        },
        Direction::Left => {
            if col > 0 {
                (row, col - 1)
            } else if row > 0 {
                (row - 1, lines[row - 1].len() as int)
            } else {
                (0, 0)
            }
        },
        Direction::Right => {
            if col < lines[row].len() {
                (row, col + 1)
            } else if row + 1 < lines.len() {
                (row + 1, 0)
            } else {
                (row, col)
            }
        },
        Direction::PageUp => (
            0,
            if col <= lines[0].len() {
                col
            } else {
                lines[0].len() as int
            },
        ),
        Direction::PageDown => {
            let r2 = lines.len() - 1;
            (r2, if col <= lines[r2].len() {
                col
            } else {
                lines[r2].len() as int
            })
        },
        Direction::Home => (row, 0),
        Direction::End => (row, lines[row].len() as int),
    }
}

/// Every directional move is total: from a valid caret it reaches a valid
/// caret, whatever the direction.
pub proof fn lemma_move_target_valid(
    lines: Seq<Seq<GraphemeView>>,
    row: int,
    col: int,
    d: Direction,
)
    requires
        caret_valid(lines, row, col),
    ensures
        caret_valid(lines, move_target(lines, row, col, d).0, move_target(lines, row, col, d).1),
{
}

/// The caret value a directional move produces.
pub open spec fn caret_after(lines: Seq<Seq<GraphemeView>>, c: Caret, d: Direction) -> Caret {
    let (r2, c2) = move_target(lines, c.row as int, c.col as int, d);
    Caret { row: r2 as usize, col: c2 as usize }
}

impl Caret {
    /// Applies one directional move against the document, clamping so that
    /// the caret never leaves it.
    pub fn move_caret(&mut self, direction: &Direction, buffer: &Buffer)
        requires
            caret_valid(buffer@, old(self).row as int, old(self).col as int),
        ensures
            *final(self) == caret_after(buffer@, *old(self), *direction),
            caret_valid(buffer@, final(self).row as int, final(self).col as int),
    {
        proof {
            lemma_move_target_valid(
                buffer@,
                old(self).row as int,
                old(self).col as int,
                *direction,
            );
            assert forall|k: int| 0 <= k < buffer@.len() implies buffer@[k]
                == buffer.lines@[k]@ by {}
        }
        match direction {
            Direction::Up => {
                if self.row > 0 {
                    self.row = self.row - 1;
                }
                let line_len = self.row_len(buffer);
                if self.col > line_len {
                    self.col = line_len;
                }
            },
            Direction::Down => {
                let nlines = buffer.lines.len();
                if self.row < nlines - 1 {
                    self.row = self.row + 1;
                }
                let line_len = self.row_len(buffer);
                if self.col > line_len {
                    self.col = line_len;
                }
            },
            Direction::Left => {
                if self.col > 0 {
                    self.col = self.col - 1;
                } else if self.row > 0 {
                    self.row = self.row - 1;
                    self.col = self.row_len(buffer);
                }
            },
            Direction::Right => {
                let line_len = self.row_len(buffer);
                let nlines = buffer.lines.len();
                if self.col < line_len {
                    self.col = self.col + 1;
                } else if self.row < nlines - 1 {
                    self.row = self.row + 1;
                    self.col = 0;
                }
            },
            Direction::PageUp => {
                self.row = 0;
                let line_len = self.row_len(buffer);
                if self.col > line_len {
                    self.col = line_len;
                }
            },
            Direction::PageDown => {
                self.row = buffer.lines.len() - 1;
                let line_len = self.row_len(buffer);
                if self.col > line_len {
                    self.col = line_len;
                }
            },
            Direction::Home => {
                self.col = 0;
            },
            Direction::End => {
                self.col = self.row_len(buffer);
            },
        }
    }

    /// The cluster count of the row the caret is on.
    fn row_len(&self, buffer: &Buffer) -> (n: usize)
        requires
            self.row < buffer@.len(),
        ensures
            n == buffer@[self.row as int].len(),
    {
        proof {
            assert(buffer@[self.row as int] == buffer.lines@[self.row as int]@);
        }
        buffer.lines[self.row].len()
    }
}

} // verus!
