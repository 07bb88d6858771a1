//! The error taxonomy of the library and its mapping, made once at the
//! API boundary, to transport status codes.

use vstd::prelude::*;

verus! {

/// Why an operation was refused or failed.
#[derive(Debug)]
pub enum Error {
    /// No identity was resolved for the request (no or invalid session).
    Authentication,
    /// The resolved identity lacks the required permission.
    Authorization,
    /// No user row exists for the requested id.
    NotFound,
    /// Identity claims lacked mandatory profile fields; holds the names
    /// of every missing field, not just the first.
    MissingUserFields(Vec<String>),
}

/// The transport status code each error maps to.
pub open spec fn spec_status_code(e: &Error) -> u16 {
    match e {
        Error::Authentication => 401u16,
        Error::Authorization => 403u16,
        Error::NotFound => 404u16,
        Error::MissingUserFields(_) => 400u16,
    }
}

impl Error {
    /// The status code a transport layer should answer with for this
    /// error: authentication 401, authorization 403, a missing row 404,
    /// incomplete claims 400.
    pub fn status_code(&self) -> (r: u16)
        ensures
            r == spec_status_code(self),
    {
        match self {
            Error::Authentication => 401,
            Error::Authorization => 403,
            Error::NotFound => 404,
            Error::MissingUserFields(_) => 400,
        }
    }
}

} // verus!
