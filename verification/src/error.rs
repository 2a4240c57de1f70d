//! The ways in which driving a program can fail.

use vstd::prelude::*;

verus! {

/// What the operating system said of a failed call.
#[derive(Debug, Clone, PartialEq, Eq)]
pub struct Cause {
    /// The error number of the operating system, where there was one.
    pub code: Option<i32>,
    /// The name of the operation that failed, or the system's message.
    pub message: String,
}

/// A `Cause` as contracts speak of it.
pub struct CauseView {
    pub code: Option<i32>,
    pub message: Seq<char>,
}

impl View for Cause {
    type V = CauseView;

    open spec fn view(&self) -> CauseView {
        CauseView { code: self.code, message: self.message@ }
    }
}

impl Cause {
    /// A cause with the error number `code` and the text `message`.
    pub fn new(code: Option<i32>, message: &str) -> (cause: Cause)
        ensures
            cause@ == (CauseView { code, message: message@ }),
    {
        Cause { code, message: message.to_owned() }
    }
}

/// A failure of a session.
#[derive(Debug, Clone, PartialEq, Eq)]
pub enum Error {
    /// The deadline passed with no match and no end of stream.
    ExpectTimeout,
    /// The stream ended and the needle did not match; `buffer` holds the
    /// bytes that were left unconsumed.
    Eof { buffer: Vec<u8> },
    /// The source of a regular expression is not valid.
    RegexParsing,
    /// A read, a write or a terminal control call failed.
    Io(Cause),
    /// The child could not be started.
    Spawn(Cause),
    /// Waiting for the child failed.
    Wait(Cause),
    /// Another failure, with a note on what was being done.
    Unknown { message: String, cause: Cause },
}

/// An `Error` as contracts speak of it: the unconsumed bytes as a sequence.
pub enum ErrorView {
    ExpectTimeout,
    Eof { buffer: Seq<u8> },
    RegexParsing,
    Io(CauseView),
    Spawn(CauseView),
    Wait(CauseView),
    Unknown { message: Seq<char>, cause: CauseView },
}

impl View for Error {
    type V = ErrorView;

    open spec fn view(&self) -> ErrorView {
        match *self {
            Error::ExpectTimeout => ErrorView::ExpectTimeout,
            Error::Eof { buffer } => ErrorView::Eof { buffer: buffer@ },
            Error::RegexParsing => ErrorView::RegexParsing,
            Error::Io(cause) => ErrorView::Io(cause@),
            Error::Spawn(cause) => ErrorView::Spawn(cause@),
            Error::Wait(cause) => ErrorView::Wait(cause@),
            Error::Unknown { message, cause } => ErrorView::Unknown {
                message: message@,
                cause: cause@,
            },
        }
    }
}

impl Error {
    /// Wraps `cause` with a note on what was being attempted.
    pub fn unknown(message: &str, cause: Cause) -> (e: Error)
        ensures
            e@ == (ErrorView::Unknown { message: message@, cause: cause@ }),
    {
        Error::Unknown { message: message.to_owned(), cause }
    }
}

/// The view of an optional error.
pub open spec fn failure_view(failure: Option<Error>) -> Option<ErrorView> {
    match failure {
        Some(e) => Some(e@),
        None => None,
    }
}

} // verus!
