//! Syntax errors.

use vstd::prelude::*;
use crate::span::Span;

verus! {

/// A syntax error: what is wrong, and where in the source.
#[derive(Clone, Debug, PartialEq, Eq)]
pub struct Error {
    pub message: String,
    pub position: Span,
}

/// What an [`Error`] stands for in contracts.
pub struct ErrorModel {
    pub message: Seq<char>,
    pub position: Span,
}

impl DeepView for Error {
    type V = ErrorModel;

    open spec fn deep_view(&self) -> ErrorModel {
        ErrorModel { message: self.message@, position: self.position }
    }
}

impl Error {
    /// An error with the given message at the given position.
    pub fn new(message: String, position: Span) -> (error: Error)
        ensures
            error.message == message,
            error.position == position,
            error.deep_view() == (ErrorModel { message: message@, position }),
    {
        Error { message, position }
    }
}

} // verus!
