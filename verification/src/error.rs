//! The error type of the library.

use vstd::prelude::*;

verus! {

/// What went wrong while supervising a command.
#[derive(Debug)]
pub enum Error {
    /// A syscall made by the supervisor itself failed with this `errno`.
    Errno(i32),
    /// An I/O operation failed; the text describes it.
    Io(String),
    /// Anything else, described in words.
    Other(String),
}

/// The mathematical value of an [`Error`].
pub enum ErrorView {
    Errno(i32),
    Io(Seq<char>),
    Other(Seq<char>),
}

impl View for Error {
    type V = ErrorView;

    open spec fn view(&self) -> ErrorView {
        match self {
            Error::Errno(code) => ErrorView::Errno(*code),
            Error::Io(text) => ErrorView::Io(text@),
            Error::Other(text) => ErrorView::Other(text@),
        }
    }
}

impl Error {
    /// An [`Error::Other`] with the given text.
    pub fn other(text: &str) -> (e: Error)
        ensures
            e@ == ErrorView::Other(text@),
    {
        Error::Other(text.to_owned())
    }
}

} // verus!
