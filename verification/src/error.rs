//! The one error this component raises: a typed variant mismatch.

use vstd::prelude::*;

verus! {

/// The kind of a reported failure. The fallible accessors raise exactly
/// one: the requested variant differs from the one the term holds.
#[derive(Debug, Clone, Copy, PartialEq, Eq, Structural)]
pub enum ErrorKind {
    TypeMismatch,
}

/// A typed, reportable failure, returned immediately to the caller with no
/// retry and no internal recovery. Whether it becomes a user-visible
/// evaluation error is entirely the caller's decision.
#[derive(Debug, Clone, Copy, PartialEq, Eq, Structural)]
pub struct Error {
    pub kind: ErrorKind,
}

impl Error {
    pub fn new(kind: ErrorKind) -> (e: Error)
        ensures
            e == (Error { kind }),
    {
        Error { kind }
    }
}

} // verus!
