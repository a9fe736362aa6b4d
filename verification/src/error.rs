//! The error every refused request is answered with: an HTTP status code and
//! a message for the person who made the request.

use vstd::prelude::*;
use vstd::string::*;

verus! {

pub const UNPROCESSABLE_ENTITY: u16 = 422;

pub const UNAUTHORIZED: u16 = 401;

pub const NOT_FOUND: u16 = 404;

pub const GONE: u16 = 410;

pub const CONFLICT: u16 = 409;

pub const FORBIDDEN: u16 = 403;

pub const SERVICE_UNAVAILABLE: u16 = 503;

pub const INTERNAL_SERVER_ERROR: u16 = 500;

/// A refused request: the status it is answered with and the message shown.
#[derive(Debug)]
pub struct ApiError {
    pub status: u16,
    pub message: String,
}

/// A refusal as a plain value: its status and its message.
pub open spec fn refusal(status: u16, message: Seq<char>) -> (u16, Seq<char>) {
    (status, message)
}

impl View for ApiError {
    type V = (u16, Seq<char>);

    open spec fn view(&self) -> (u16, Seq<char>) {
        (self.status, self.message@)
    }
}

/// The message of an internal failure.
pub open spec fn internal_message() -> Seq<char> {
    "Something went wrong while saving. Try again."@
}

/// What a checked operation gives back, as plain values: the accepted value
/// or the refusal.
pub open spec fn outcome<T: View>(r: Result<T, ApiError>) -> Result<T::V, (u16, Seq<char>)> {
    match r {
        Ok(v) => Ok(v@),
        Err(e) => Err(e@),
    }
}

/// What a check without a value gives back, as plain values.
pub open spec fn verdict(r: Result<(), ApiError>) -> Result<(), (u16, Seq<char>)> {
    match r {
        Ok(_) => Ok(()),
        Err(e) => Err(e@),
    }
}

impl ApiError {
    fn with_status(status: u16, message: &str) -> (e: Self)
        ensures
            e@ == refusal(status, message@),
    {
        ApiError { status, message: String::from_str(message) }
    }

    /// Input that breaks a rule (422).
    pub fn validation(message: &str) -> (e: Self)
        ensures
            e@ == refusal(UNPROCESSABLE_ENTITY, message@),
    {
        Self::with_status(UNPROCESSABLE_ENTITY, message)
    }

    /// A request without a valid workspace key (401).
    pub fn unauthorized(message: &str) -> (e: Self)
        ensures
            e@ == refusal(UNAUTHORIZED, message@),
    {
        Self::with_status(UNAUTHORIZED, message)
    }

    /// Something that does not exist (404).
    pub fn not_found(message: &str) -> (e: Self)
        ensures
            e@ == refusal(NOT_FOUND, message@),
    {
        Self::with_status(NOT_FOUND, message)
    }

    /// Something that existed and has expired (410).
    pub fn gone(message: &str) -> (e: Self)
        ensures
            e@ == refusal(GONE, message@),
    {
        Self::with_status(GONE, message)
    }

    /// A request that clashes with what is stored (409).
    pub fn conflict(message: &str) -> (e: Self)
        ensures
            e@ == refusal(CONFLICT, message@),
    {
        Self::with_status(CONFLICT, message)
    }

    /// A paid feature without a valid license (403).
    pub fn forbidden(message: &str) -> (e: Self)
        ensures
            e@ == refusal(FORBIDDEN, message@),
    {
        Self::with_status(FORBIDDEN, message)
    }

    /// A service that the request depends on did not answer (503).
    pub fn service_unavailable(message: &str) -> (e: Self)
        ensures
            e@ == refusal(SERVICE_UNAVAILABLE, message@),
    {
        Self::with_status(SERVICE_UNAVAILABLE, message)
    }

    /// A failure of the server itself (500), with a fixed message.
    pub fn internal() -> (e: Self)
        ensures
            e@ == refusal(INTERNAL_SERVER_ERROR, internal_message()),
    {
        Self::with_status(INTERNAL_SERVER_ERROR, "Something went wrong while saving. Try again.")
    }
}

} // verus!
