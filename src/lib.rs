//! Editing engine of a modal terminal text editor: a rope-backed text store,
//! document buffers with snapshot history, cursor motions and the mode machine.

pub mod text;
pub mod rope;
pub mod buffer;
pub mod motion;
pub mod editor;
pub mod state;
pub mod file_ops;
