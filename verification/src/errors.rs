//! The typed failures of the editing core.

use vstd::prelude::*;

verus! {

/// A line or character index lies outside the buffer.
#[derive(Clone, Copy, Debug, PartialEq, Eq, Structural)]
pub struct OutOfRangeError {
    /// The index that was asked for.
    pub index: usize,
    /// The number of lines or characters that it was held against.
    pub limit: usize,
}

/// Why no selected text could be read.
#[derive(Clone, Copy, Debug, PartialEq, Eq, Structural)]
pub enum TextSelectionError {
    /// No selection is active.
    NoSelection,
    /// An endpoint of the selection lies outside the buffer.
    InvalidRange,
}

/// Why a payload could not be pasted.
#[derive(Clone, Copy, Debug, PartialEq, Eq, Structural)]
pub enum ClipboardError {
    /// The cursor lies outside the buffer, so there is no place to paste at.
    CursorOutOfRange,
    /// A line of the payload holds a line terminator.
    MalformedPayload,
}

/// Undo was asked for with nothing to undo.
#[derive(Clone, Copy, Debug, PartialEq, Eq, Structural)]
pub struct UndoError;

/// Redo was asked for with nothing to redo.
#[derive(Clone, Copy, Debug, PartialEq, Eq, Structural)]
pub struct RedoError;

/// A failure of an editing request, as the application surface reports it.
#[derive(Clone, Copy, Debug, PartialEq, Eq, Structural)]
pub enum EditorError {
    /// Copy or cut found no selection to read.
    TextSelectionError(TextSelectionError),
    /// Paste could not set the payload in.
    ClipboardError(ClipboardError),
    /// There was nothing to undo.
    UndoError(UndoError),
    /// There was nothing to redo.
    RedoError(RedoError),
}

/// A failure of the application around the editor.
#[derive(Debug)]
pub enum AppError {
    /// Something went wrong inside the application; the text says what.
    InternalError(String),
}

} // verus!
