//! The error type for this crate.

use vstd::prelude::*;

verus! {

/// A list of error kinds.
#[derive(Debug, Clone, Copy, PartialEq, Eq, Structural)]
pub enum ErrorKind {
    /// Invalid input.
    Invalid,

    /// Unknown error.
    Other,
}

/// The error type for this crate: a kind together with a short
/// description of what was wrong.
#[derive(Debug, Clone, PartialEq, Eq)]
pub struct Error {
    /// The kind of this error.
    pub kind: ErrorKind,
    /// A short description of what was wrong.
    pub message: String,
}

impl Error {
    /// Makes an error of the given kind with the given description.
    pub fn new(kind: ErrorKind, message: String) -> (r: Error)
        ensures
            r.kind == kind,
            r.message@ == message@,
    {
        Error { kind, message }
    }

    /// The kind of this error.
    pub fn kind(&self) -> (r: ErrorKind)
        ensures
            r == self.kind,
    {
        self.kind
    }

    /// The description of this error.
    pub fn message(&self) -> (r: &str)
        ensures
            r@ == self.message@,
    {
        self.message.as_str()
    }
}

} // verus!
