//! The unified error value for failed transfers.

use vstd::prelude::*;

verus! {

/// Status code reported for failures that never produced a real HTTP status
/// (unresolvable host, TLS failure, broken transport, ...), so that callers
/// can tell "the server said no" apart from "the server was never reached".
pub const TRANSPORT_FAILURE_CODE: u16 = 499;

/// A transfer failure: the HTTP status code (or [`TRANSPORT_FAILURE_CODE`]
/// when none exists) together with a human-readable description.
#[derive(Debug)]
pub struct Error {
    pub code: u16,
    pub message: String,
}

impl Error {
    /// Wraps a status code and a description as an error value.
    pub fn new(code: u16, message: String) -> (r: Error)
        ensures
            r.code == code,
            r.message@ == message@,
    {
        Error { code, message }
    }

    /// Classifies a failed exchange: a failure that carries a real HTTP
    /// status keeps that code, every other failure gets the transport
    /// sentinel.  The description is kept either way.
    pub fn from_status(status: Option<u16>, message: String) -> (r: Error)
        ensures
            r.message@ == message@,
            status is Some ==> r.code == status->0,
            status is None ==> r.code == TRANSPORT_FAILURE_CODE,
    {
        match status {
            Some(code) => Error { code, message },
            None => Error { code: TRANSPORT_FAILURE_CODE, message },
        }
    }
}

} // verus!
