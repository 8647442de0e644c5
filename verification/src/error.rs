//! Error taxonomy of the service: an authentication failure or an internal
//! (upstream/decode) failure, together with the HTTP status and body that
//! each one is answered with.

use vstd::prelude::*;
use vstd::string::*;

verus! {

/// A request-level failure: either the caller is not authorized, or
/// something went wrong upstream (database, row decoding).
#[derive(Debug, Clone, PartialEq, Eq)]
pub enum AppError {
    Unauthorized,
    Internal(String),
}

pub const STATUS_FORBIDDEN: u16 = 403;

pub const STATUS_INTERNAL_ERROR: u16 = 500;

impl AppError {
    /// The HTTP status code and plain-text body this error is answered
    /// with: 403 "forbidden" for an authentication failure, 500
    /// "internal error" for everything else. The internal detail is
    /// never echoed to the caller.
    pub fn response_parts(&self) -> (r: (u16, String))
        ensures
            self is Unauthorized ==> r.0 == STATUS_FORBIDDEN && r.1@ == "forbidden"@,
            self is Internal ==> r.0 == STATUS_INTERNAL_ERROR && r.1@ == "internal error"@,
    {
        match self {
            AppError::Unauthorized => (STATUS_FORBIDDEN, String::from_str("forbidden")),
            AppError::Internal(_) => (STATUS_INTERNAL_ERROR, String::from_str("internal error")),
        }
    }
}

} // verus!
