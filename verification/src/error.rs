//! The error surface of a lookup: exactly two kinds, each carrying a
//! message that names the offending path.

use vstd::prelude::*;

verus! {

/// The two ways a lookup can fail.
#[derive(Debug, Clone, Copy, PartialEq, Eq, Structural)]
pub enum ErrorKind {
    /// The joined candidate path does not exist in the snapshot consulted at
    /// query time.
    NotFound,
    /// The branch's own path did not exist in the snapshot consulted when the
    /// branch was constructed.
    NotAlive,
}

/// A lookup error: a kind together with a human-readable message.
#[derive(Debug)]
pub struct Error {
    pub kind: ErrorKind,
    pub msg: String,
}

/// The mathematical image of an [`Error`]: its kind and the characters of its
/// message.
pub struct ErrorModel {
    pub kind: ErrorKind,
    pub msg: Seq<char>,
}

impl View for Error {
    type V = ErrorModel;

    open spec fn view(&self) -> ErrorModel {
        ErrorModel { kind: self.kind, msg: self.msg@ }
    }
}

impl Error {
    /// Packs a kind and a message into an error, changing neither.
    pub fn new(kind: ErrorKind, msg: &str) -> (e: Error)
        ensures
            e@ == (ErrorModel { kind, msg: msg@ }),
    {
        Error { kind, msg: String::from_str(msg) }
    }
}

} // verus!
