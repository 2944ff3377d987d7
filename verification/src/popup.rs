//! Popups of the application surface, as plain data.

use crate::errors::AppError;
use vstd::prelude::*;
use vstd::string::*;

verus! {

/// What the user answered to the popup that was open last.
#[derive(Clone, Copy, Debug, PartialEq, Eq, Structural)]
pub enum PopupResult {
    /// No answer yet.
    Unanswered,
    /// Yes or no.
    Bool(bool),
    /// The popup was acknowledged.
    Affirmed,
}

/// A popup that asks for a yes or a no.
#[derive(Debug)]
pub struct ConfirmationPopup {
    pub message: String,
}

impl ConfirmationPopup {
    /// A popup that asks `message`.
    pub fn new(message: &str) -> (p: ConfirmationPopup)
        ensures
            p.message@ == message@,
    {
        ConfirmationPopup { message: message.to_owned() }
    }
}

/// A popup that reports a failure.
#[derive(Debug)]
pub struct ErrorPopup {
    pub message: String,
    pub error: AppError,
}

impl ErrorPopup {
    /// A popup that reports `error` under `message`.
    pub fn new(message: &str, error: AppError) -> (p: ErrorPopup)
        ensures
            p.message@ == message@,
            p.error == error,
    {
        ErrorPopup { message: message.to_owned(), error }
    }
}

/// A popup.
#[derive(Debug)]
pub enum Popup {
    Confirmation(ConfirmationPopup),
    Error(ErrorPopup),
}

} // verus!
