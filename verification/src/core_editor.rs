//! The text-buffer primitive and the editor that wraps it with a cut buffer
//! and an undo-checkpoint stack.

pub mod editor;
pub mod line_buffer;
