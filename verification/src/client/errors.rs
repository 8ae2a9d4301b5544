use crate::text::push_char;
use vstd::prelude::*;
use vstd::string::StringExecFns;

verus! {

/// Why an exchange with the server failed.
#[derive(Debug, Clone, PartialEq, Eq)]
pub enum RedashError {
    /// The server answered with an error line; its text.
    DataError(String),
    /// The byte stream failed or ended too early.
    IOError(String),
    /// The reply was not well formed: text that is not UTF-8, or a malformed number.
    UnknownError(String),
    /// The reply began with a byte that announces no known kind of value.
    ServerError(String, u8),
    /// The operation could not be attempted at all.
    OperationError(String),
}

/// The mathematical content of a [`RedashError`].
pub enum ErrorView {
    DataError(Seq<char>),
    IOError(Seq<char>),
    UnknownError(Seq<char>),
    ServerError(Seq<char>, u8),
    OperationError(Seq<char>),
}

impl ErrorView {
    /// The text shown to the user for this error.
    pub open spec fn message(self) -> Seq<char> {
        match self {
            ErrorView::DataError(text) => text,
            ErrorView::IOError(text) => text,
            ErrorView::UnknownError(text) => text,
            ErrorView::ServerError(text, byte) => text + " - Server response: "@.push(byte as char),
            ErrorView::OperationError(text) => text,
        }
    }
}

impl View for RedashError {
    type V = ErrorView;

    open spec fn view(&self) -> ErrorView {
        match self {
            RedashError::DataError(text) => ErrorView::DataError(text@),
            RedashError::IOError(text) => ErrorView::IOError(text@),
            RedashError::UnknownError(text) => ErrorView::UnknownError(text@),
            RedashError::ServerError(text, byte) => ErrorView::ServerError(text@, *byte),
            RedashError::OperationError(text) => ErrorView::OperationError(text@),
        }
    }
}

impl RedashError {
    /// The text shown to the user for this error. An unknown leading byte is
    /// reported together with the character that the byte stands for.
    pub fn message(&self) -> (text: String)
        ensures
            text@ == self@.message(),
    {
        match self {
            RedashError::DataError(err) => err.clone(),
            RedashError::IOError(err) => err.clone(),
            RedashError::UnknownError(err) => err.clone(),
            RedashError::ServerError(err, byte) => {
                let mut text = err.clone().concat(" - Server response: ");
                push_char(&mut text, *byte as char);
                text
            },
            RedashError::OperationError(err) => err.clone(),
        }
    }
}

} // verus!
