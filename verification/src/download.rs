//! The download source: an HTTP GET response seen as a plain byte source
//! with a declared length.
//!
//! The live response body and the GET itself belong to the unverified
//! surroundings; they hand this module the response's status and its
//! `Content-Length` header, and read the body through the handle they keep.

use vstd::prelude::*;

use crate::content_length::spec_parse_content_length;
use crate::content_length::parse_content_length;
use crate::error::Error;

verus! {

/// Lowest HTTP status code that counts as success.
pub const FIRST_SUCCESS_STATUS: u16 = 200;

/// First HTTP status code beyond the success range.
pub const FIRST_NON_SUCCESS_STATUS: u16 = 300;

/// The status code announces a successful response.
pub open spec fn is_success_status(status: u16) -> bool {
    FIRST_SUCCESS_STATUS <= status < FIRST_NON_SUCCESS_STATUS
}

/// The declared length of a download, read once from the response headers.
/// The body itself stays with the unverified reader that feeds on it.
pub struct HttpReader {
    length: Option<u64>,
}

impl HttpReader {
    /// The byte count the response declared, if any.
    pub closed spec fn declared_length(&self) -> Option<u64> {
        self.length
    }

    /// Decides the fate of a download from the response's status line and
    /// its `Content-Length` header.  A non-success status fails at once
    /// with that very code and the given description; a success keeps the
    /// declared length when the header is present and well formed, and
    /// records none when it is absent or malformed.
    pub fn new(status: u16, message: String, content_length: Option<&[u8]>) -> (r: Result<
        HttpReader,
        Error,
    >)
        ensures
            r is Ok <==> is_success_status(status),
            r is Ok ==> r->Ok_0.declared_length() == (match content_length {
                Some(h) => spec_parse_content_length(h@),
                None => None::<u64>,
            }),
            !is_success_status(status) ==> r is Err && r->Err_0.code == status
                && r->Err_0.message@ == message@,
    {
        if status < FIRST_SUCCESS_STATUS || status >= FIRST_NON_SUCCESS_STATUS {
            return Err(Error::new(status, message));
        }
        let length = match content_length {
            Some(h) => parse_content_length(h),
            None => None,
        };
        Ok(HttpReader { length })
    }

    /// The declared byte count: `Some` exactly when the response carried a
    /// well-formed `Content-Length`.  Callers may size buffers by it but
    /// must not trust it; the bytes actually read govern.
    pub fn len(&self) -> (r: Option<u64>)
        ensures
            r == self.declared_length(),
    {
        self.length
    }
}

} // verus!
