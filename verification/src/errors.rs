//! The failure taxonomy of the engine.

use vstd::prelude::*;

verus! {

/// What went wrong during a reconciliation cycle.
#[derive(Clone, Copy, Debug, PartialEq, Eq, Structural)]
pub enum ErrorKind {
    /// Credentials were rejected or a login result could not be read.
    Auth,
    /// A request came back with an unexpected status or shape.
    Protocol,
    /// The status page did not have the expected structure.
    Parse,
    /// The provider returned mismatched internal/external ports on a
    /// fresh request.
    Consistency,
    /// A single downstream client's operation failed.
    Downstream,
    /// Cache persistence failed.
    Io,
}

/// An error of the engine: its kind plus a human-readable message.
#[derive(Clone, Debug)]
pub struct PortError {
    pub kind: ErrorKind,
    pub message: String,
}

impl PortError {
    /// Build an error of the given kind with the given message.
    pub fn new(kind: ErrorKind, message: &str) -> (r: PortError)
        ensures
            r.kind == kind,
            r.message@ == message@,
    {
        PortError { kind, message: message.to_owned() }
    }

    /// Build an error of the given kind, taking the message's string.
    pub fn with_message(kind: ErrorKind, message: String) -> (r: PortError)
        ensures
            r.kind == kind,
            r.message == message,
    {
        PortError { kind, message }
    }

    /// The message, for reporting.
    pub fn describe(&self) -> (r: String)
        ensures
            r@ == self.message@,
    {
        self.message.clone()
    }
}

} // verus!
