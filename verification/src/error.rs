//! Error values produced by the library's own logic.
//!
//! Only two kinds arise in the verified code: a missing prerequisite
//! (`NotFound`) and malformed input data (`InvalidData`). Underlying
//! storage failures surface outside the library, at the code that
//! actually touches the disk.
use vstd::prelude::*;

verus! {

/// The kind of a library error, mirroring the two recoverable
/// failure classes of the design: a missing directory, key or
/// prerequisite, and input that does not match the expected format.
#[derive(Debug, Clone, Copy, PartialEq, Eq, Structural)]
pub enum ErrorKind {
    NotFound,
    InvalidData,
}

/// A descriptive error: a kind plus a human-readable message.
#[derive(Debug, Clone)]
pub struct OptimizerError {
    pub kind: ErrorKind,
    pub message: String,
}

impl OptimizerError {
    /// Builds an error of the given kind with the given message.
    pub fn new(kind: ErrorKind, message: &str) -> (r: OptimizerError)
        ensures
            r.kind == kind,
            r.message@ == message@,
    {
        OptimizerError { kind, message: message.to_owned() }
    }

    /// The message, for callers that need to display the error.
    pub fn message(&self) -> (r: &str)
        ensures
            r@ == self.message@,
    {
        self.message.as_str()
    }
}

} // verus!
