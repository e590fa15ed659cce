//! Outcome of a remote procedure call that failed: a status code and a
//! message, as carried by gRPC.
use vstd::prelude::*;

verus! {

/// gRPC status codes that the services answer with.
#[derive(Debug, Clone, Copy, PartialEq, Eq, Structural)]
pub enum Code {
    InvalidArgument,
    NotFound,
    Internal,
    Unauthenticated,
}

/// A failed call: the status code and its message.
#[derive(Debug, Clone)]
pub struct Status {
    pub code: Code,
    pub message: String,
}

impl Status {
    /// A failure with the given code and message.
    pub fn new(code: Code, message: String) -> (s: Self)
        ensures
            s.code == code,
            s.message == message,
    {
        Status { code, message }
    }
}

} // verus!
