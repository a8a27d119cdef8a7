use vstd::prelude::*;

verus! {

/// HTTP status codes used by the gateway.
pub const OK: u16 = 200;
pub const BAD_REQUEST: u16 = 400;
pub const UNAUTHORIZED: u16 = 401;
pub const FORBIDDEN: u16 = 403;
pub const NOT_FOUND: u16 = 404;
pub const METHOD_NOT_ALLOWED: u16 = 405;
pub const INTERNAL_SERVER_ERROR: u16 = 500;

/// The single error value of the gateway: an HTTP status and a readable cause.
#[derive(Debug)]
pub struct Error {
    pub status_code: u16,
    pub cause: String,
}

impl Error {
    pub fn new(status_code: u16, cause: String) -> (r: Error)
        ensures
            r == (Error { status_code, cause }),
    {
        Error { status_code, cause }
    }

    /// Maps an underlying failure, given by its message, into an error of the
    /// given status; the message becomes the cause unchanged.
    pub fn wrap(status_code: u16, failure: &str) -> (r: Error)
        ensures
            r.status_code == status_code,
            r.cause@ == failure@,
    {
        Error { status_code, cause: failure.to_owned() }
    }
}

} // verus!
