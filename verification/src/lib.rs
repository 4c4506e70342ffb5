//! A small text-editing library: a line buffer with a cursor, the commands
//! that mutate it, the line codec used for loading and saving files, and the
//! session state of a minimal GUI editor.

pub mod codec;
pub mod command;
pub mod editor;
pub mod gui;
pub mod render;
