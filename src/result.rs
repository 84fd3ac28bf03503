//! Error model: every native failure becomes a message paired with a kind.
use vstd::prelude::*;

verus! {

/// The closed set of failures that the socket operations report.
#[derive(Debug, Clone, Copy, PartialEq, Eq, Structural)]
pub enum ErrorKind {
    /// The native library could not allocate a socket.
    SocketInitializationError,
    /// The native library refused to bind a socket to an address.
    SocketBindError,
}

/// A failure: a human-readable description and a kind to branch on.
#[derive(Debug)]
pub struct NanoError {
    pub description: String,
    pub kind: ErrorKind,
}

/// The result of every fallible socket operation.
pub type NanoResult<T> = Result<T, NanoError>;

impl NanoError {
    /// Pairs a description with a kind. Any description is accepted.
    pub fn new(description: &str, kind: ErrorKind) -> (r: NanoError)
        ensures
            r.description@ == description@,
            r.kind == kind,
    {
        NanoError { description: description.to_owned(), kind }
    }

    /// The text that the error renders as: its description.
    pub fn message(&self) -> (r: String)
        ensures
            r@ == self.description@,
    {
        self.description.clone()
    }
}

} // verus!
