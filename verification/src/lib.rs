//! The in-memory text model of a terminal text editor: the line buffer, the
//! cursor and the selection, the scroll window, the edit operations, the
//! clipboard payload and undo and redo, with the application surface that
//! drives them.
//!
//! [`model`] says what every request does, as functions on sequences of
//! characters; the executable code in the other modules is proved to follow
//! it, and [`laws`] states what follows for every document and every request.

pub mod app;
pub mod clipboard;
pub mod command_line;
pub mod config;
pub mod cursor;
pub mod document;
pub mod edit;
pub mod editor;
pub mod errors;
pub mod history;
pub mod laws;
pub mod line_buffer;
pub mod model;
pub mod motion;
pub mod popup;
pub mod proofs;
pub mod range;
pub mod saving;
pub mod text;
pub mod validity;
