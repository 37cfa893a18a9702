use crate::size::Size;
use vstd::prelude::*;

verus! {

/// The eight directional inputs a caret understands.
#[derive(Debug, Clone, Copy, PartialEq, Eq, Structural)]
pub enum Direction {
    Up,
    Down,
    Left,
    Right,
    PageUp,
    PageDown,
    Home,
    End,
}

/// An abstract editing command, as decoded from raw terminal input by the
/// outer layer: caret movement, text entry, the two deletions, a terminal
/// resize, or a request to quit.
#[derive(Debug, Clone, Copy, PartialEq, Eq, Structural)]
pub enum Command {
    Move(Direction),
    Insert(char),
    Remove,
    Delete,
    Resize(Size),
    Quit,
}

} // verus!
