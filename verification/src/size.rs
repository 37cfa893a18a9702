use vstd::prelude::*;

verus! {

/// A terminal's cell grid dimensions: columns across, rows down.
#[derive(Debug, Clone, Copy, PartialEq, Eq, Structural)]
pub struct Size {
    pub width: usize,
    pub height: usize,
}

impl Default for Size {
    /// A zero-by-zero grid, used before any real size is known.
    fn default() -> (s: Self)
        ensures
            s.width == 0,
            s.height == 0,
    {
        Size { width: 0, height: 0 }
    }
}

} // verus!
