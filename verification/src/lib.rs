//! The in-memory text model and screen-coordinate engine of a terminal line
//! editor: documents are sequences of lines of Unicode grapheme clusters,
//! edits happen at (row, cluster-index) coordinates, and a scrolled viewport
//! maps the caret onto terminal cells.

pub mod position;
pub mod size;
pub mod command;
pub mod grapheme;
pub mod line;
pub mod buffer;
pub mod caret;
pub mod view;
pub mod laws;
