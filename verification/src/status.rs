//! HTTP status codes as plain integers, classified by the `http` crate, which
//! is reached here as `axum::http`.

use axum::http::StatusCode;
use vstd::prelude::*;

verus! {

/// The standard reason phrase that `http::StatusCode::canonical_reason` gives
/// for a status code, or `None` where the crate's table has no entry.
pub uninterp spec fn reason_phrase(code: u16) -> Option<Seq<char>>;

/// The characters of an optional string.
pub open spec fn text_of(text: Option<String>) -> Option<Seq<char>> {
    match text {
        Some(s) => Some(s@),
        None => None,
    }
}

/// Calls `http::StatusCode::is_client_error` on the status that
/// `StatusCode::from_u16` makes of a three-digit code.
/// Trusted: the method tests whether the code lies in `400..500`.
#[verifier::external_body]
fn code_is_client_error(code: u16) -> (r: bool)
    requires
        100 <= code <= 999,
    ensures
        r == (400 <= code < 500),
{
    match StatusCode::from_u16(code) {
        Ok(status) => status.is_client_error(),
        Err(_) => false,
    }
}

/// Calls `http::StatusCode::is_server_error` on the status that
/// `StatusCode::from_u16` makes of a three-digit code.
/// Trusted: the method tests whether the code lies in `500..600`.
#[verifier::external_body]
fn code_is_server_error(code: u16) -> (r: bool)
    requires
        100 <= code <= 999,
    ensures
        r == (500 <= code < 600),
{
    match StatusCode::from_u16(code) {
        Ok(status) => status.is_server_error(),
        Err(_) => false,
    }
}

/// Calls `http::StatusCode::canonical_reason` on the status that
/// `StatusCode::from_u16` makes of a three-digit code.
/// Trusted: the result is the crate's table entry for the code, which this
/// library only names as `reason_phrase`; nothing is claimed of its text.
#[verifier::external_body]
fn code_canonical_reason(code: u16) -> (r: Option<String>)
    requires
        100 <= code <= 999,
    ensures
        text_of(r) == reason_phrase(code),
{
    match StatusCode::from_u16(code) {
        Ok(status) => status.canonical_reason().map(String::from),
        Err(_) => None,
    }
}

/// A three-digit HTTP status code.
#[derive(Clone, Copy, Debug, PartialEq, Eq)]
pub struct Status {
    code: u16,
}

impl Status {
    #[verifier::type_invariant]
    spec fn in_range(self) -> bool {
        100 <= self.code <= 999
    }

    /// The numeric code.
    pub closed spec fn code(self) -> u16 {
        self.code
    }

    /// The status with the given code, where the code has three digits.
    pub fn from_u16(code: u16) -> (r: Option<Status>)
        ensures
            r is Some <==> 100 <= code <= 999,
            r matches Some(s) ==> s.code() == code,
    {
        if 100 <= code && code <= 999 {
            Some(Status { code })
        } else {
            None
        }
    }

    /// The numeric code, always of three digits.
    pub fn as_u16(self) -> (r: u16)
        ensures
            r == self.code(),
            100 <= r <= 999,
    {
        proof {
            use_type_invariant(self);
        }
        self.code
    }

    /// 200 OK.
    pub fn ok() -> (r: Status)
        ensures
            r.code() == 200,
    {
        Status { code: 200 }
    }

    /// 400 Bad Request.
    pub fn bad_request() -> (r: Status)
        ensures
            r.code() == 400,
    {
        Status { code: 400 }
    }

    /// 401 Unauthorized.
    pub fn unauthorized() -> (r: Status)
        ensures
            r.code() == 401,
    {
        Status { code: 401 }
    }

    /// 404 Not Found.
    pub fn not_found() -> (r: Status)
        ensures
            r.code() == 404,
    {
        Status { code: 404 }
    }

    /// 500 Internal Server Error.
    pub fn internal_server_error() -> (r: Status)
        ensures
            r.code() == 500,
    {
        Status { code: 500 }
    }

    /// 502 Bad Gateway.
    pub fn bad_gateway() -> (r: Status)
        ensures
            r.code() == 502,
    {
        Status { code: 502 }
    }

    /// Whether the code is a client error, 400 to 499.
    pub fn is_client_error(self) -> (r: bool)
        ensures
            r == (400 <= self.code() < 500),
    {
        proof {
            use_type_invariant(self);
        }
        code_is_client_error(self.code)
    }

    /// Whether the code is a server error, 500 to 599.
    pub fn is_server_error(self) -> (r: bool)
        ensures
            r == (500 <= self.code() < 600),
    {
        proof {
            use_type_invariant(self);
        }
        code_is_server_error(self.code)
    }

    /// The standard reason phrase of the code, if it has one.
    pub fn canonical_reason(self) -> (r: Option<String>)
        ensures
            text_of(r) == reason_phrase(self.code()),
    {
        proof {
            use_type_invariant(self);
        }
        code_canonical_reason(self.code)
    }
}

} // verus!
