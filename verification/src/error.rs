//! The errors that detection reports.

use vstd::prelude::*;

verus! {

/// Why an entropy source cannot be used.
#[derive(Debug, Clone, Copy, PartialEq, Eq)]
pub enum ErrorKind {
    /// The source does not exist in this environment, and trying again
    /// will not change that.
    Unavailable,
}

/// A failure to bind to an entropy source: its kind and a fixed message.
#[derive(Debug, Clone, Copy, PartialEq, Eq)]
pub struct Error {
    /// The kind of the failure.
    pub kind: ErrorKind,
    /// What was missing, in words.
    pub msg: &'static str,
}

impl Error {
    /// The error of a browser context that has no `crypto` property.
    pub open spec fn crypto_undefined() -> Error {
        Error { kind: ErrorKind::Unavailable, msg: "self.crypto is undefined" }
    }

    /// The error of a `crypto` object that has no `getRandomValues`
    /// function.
    pub open spec fn get_random_values_undefined() -> Error {
        Error { kind: ErrorKind::Unavailable, msg: "self.crypto.getRandomValues is undefined" }
    }

    /// An error of the given kind with the given message.
    pub fn new(kind: ErrorKind, msg: &'static str) -> (e: Error)
        ensures
            e.kind == kind,
            e.msg == msg,
    {
        Error { kind, msg }
    }
}

} // verus!
