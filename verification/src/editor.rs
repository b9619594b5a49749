//! The track editor: its undo/redo history, the state of its tools, and the
//! decisions each tool takes on mouse input.

pub mod history;
pub mod state;
pub mod tools;
