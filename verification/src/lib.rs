//! Core of a modal terminal text editor: a line-oriented text buffer,
//! a cursor/viewport model, a mode machine, a timed key-sequence
//! resolver, and a registry of named editor commands.
//!
//! The crate holds only the editor's logic; reading the terminal,
//! drawing, and file input/output are left to the program around it.

pub mod buf;
pub mod cmd;
pub mod cursor;
pub mod draw;
pub mod editor;
pub mod key;
pub mod mode;
pub mod state;
pub mod text;
pub mod types;
