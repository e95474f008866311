//! Errors surfaced by the controller.
use vstd::prelude::*;
use crate::control::Player;

verus! {

/// What went wrong.
#[derive(Debug, Clone)]
pub enum ErrorKind {
    /// The operation text names no known operation; holds the text.
    UnknownOperation(String),
    /// The player text names no known backend; holds the text.
    InvalidBackendChoice(String),
    /// A call to a backend failed; holds the backend and the native message.
    BackendCallFailed(Player, String),
}

/// An error of the controller.
#[derive(Debug, Clone)]
pub struct Error {
    pub kind: ErrorKind,
}

impl Error {
    pub fn new(kind: ErrorKind) -> (r: Self)
        ensures
            r.kind == kind,
    {
        Error { kind }
    }
}

} // verus!
