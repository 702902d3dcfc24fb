//! Errors of the filesystem helpers.

use vstd::prelude::*;

verus! {

#[verifier::external_type_specification]
#[verifier::external_body]
pub struct ExIoError(std::io::Error);

/// The kinds of I/O failure that the library tells apart.
#[derive(Clone, Copy, Debug, PartialEq, Eq, Structural)]
pub enum IoErrorKind {
    NotFound,
    PermissionDenied,
    AlreadyExists,
    InvalidInput,
    InvalidData,
    TimedOut,
    Interrupted,
    UnexpectedEof,
    /// Any other kind.
    Other,
}

/// An I/O failure as plain values: its kind and its text.
#[derive(Clone, Debug, PartialEq, Eq)]
pub struct IoError {
    pub kind: IoErrorKind,
    pub message: String,
}

/// Calls `std::io::Error::kind` and tells the kinds of the standard library
/// apart, one for one; every kind without a counterpart becomes `Other`.
#[verifier::external_body]
fn io_kind(error: &std::io::Error) -> (kind: IoErrorKind) {
    match error.kind() {
        std::io::ErrorKind::NotFound => IoErrorKind::NotFound,
        std::io::ErrorKind::PermissionDenied => IoErrorKind::PermissionDenied,
        std::io::ErrorKind::AlreadyExists => IoErrorKind::AlreadyExists,
        std::io::ErrorKind::InvalidInput => IoErrorKind::InvalidInput,
        std::io::ErrorKind::InvalidData => IoErrorKind::InvalidData,
        std::io::ErrorKind::TimedOut => IoErrorKind::TimedOut,
        std::io::ErrorKind::Interrupted => IoErrorKind::Interrupted,
        std::io::ErrorKind::UnexpectedEof => IoErrorKind::UnexpectedEof,
        _ => IoErrorKind::Other,
    }
}

/// Calls `std::io::Error`'s `to_string`: the text the error displays as.
#[verifier::external_body]
fn io_text(error: &std::io::Error) -> (text: String) {
    error.to_string()
}

impl IoError {
    /// Takes the kind and the text out of an error of the standard library.
    pub fn from_std(error: &std::io::Error) -> (res: IoError) {
        IoError { kind: io_kind(error), message: io_text(error) }
    }
}

/// What can go wrong while looking for a file.
#[derive(Clone, Debug, PartialEq, Eq)]
pub enum Error {
    Io(IoError),
}

impl Error {
    /// Whether the failure says that a file or directory does not exist.
    pub open spec fn is_not_found(self) -> bool {
        self matches Error::Io(e) && e.kind == IoErrorKind::NotFound
    }

    /// Whether the failure says that a file or directory does not exist.
    pub fn not_found(&self) -> (b: bool)
        ensures
            b == self.is_not_found(),
    {
        match self {
            Error::Io(io_error) => io_error.kind == IoErrorKind::NotFound,
        }
    }

    /// The underlying failure.
    pub fn source(&self) -> (res: Option<&IoError>)
        ensures
            self matches Error::Io(e) && res == Some(e),
    {
        match self {
            Error::Io(err) => Some(err),
        }
    }

    /// The text of the failure: that of the underlying I/O failure.
    pub fn message(&self) -> (text: String)
        ensures
            self matches Error::Io(e) && text@ == e.message@,
    {
        match self {
            Error::Io(err) => err.message.clone(),
        }
    }
}

} // verus!
