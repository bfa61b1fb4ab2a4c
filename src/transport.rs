//! What the library reads from reqwest's errors.
use vstd::prelude::*;
use vstd::string::to_string_from_display_ensures;

use crate::error::{FetchError, FetchErrorKind, TransportFailure, kind_of};

verus! {

/// reqwest's error type, carried through opaquely.
#[verifier::external_type_specification]
#[verifier::external_body]
pub struct ExReqwestError(reqwest::Error);

/// Whether reqwest deems the error a connection failure.
pub uninterp spec fn connect_of(e: reqwest::Error) -> bool;

/// Whether reqwest deems the error a timeout.
pub uninterp spec fn timeout_of(e: reqwest::Error) -> bool;

/// The HTTP status code that the error carries, if any.
pub uninterp spec fn status_code_of(e: reqwest::Error) -> Option<u16>;

/// Relies on reqwest::Error::is_connect: whether a hyper connect error is in
/// the error's source chain, which depends on the error alone.
pub assume_specification[ reqwest::Error::is_connect ](e: &reqwest::Error) -> (r: bool)
    ensures
        r == connect_of(*e),
;

/// Relies on reqwest::Error::is_timeout: whether a timeout is in the error's
/// source chain, which depends on the error alone.
pub assume_specification[ reqwest::Error::is_timeout ](e: &reqwest::Error) -> (r: bool)
    ensures
        r == timeout_of(*e),
;

/// Relies on reqwest::Error::status, read through http::StatusCode::as_u16:
/// the status of an error made from a response, which depends on the error
/// alone; every constructor of a status code checks that it lies in
/// 100..=999.
#[verifier::external_body]
fn status_code(e: &reqwest::Error) -> (r: Option<u16>)
    ensures
        r == status_code_of(*e),
        r matches Some(c) ==> 100 <= c <= 999,
{
    e.status().map(|c| c.as_u16())
}

impl TransportFailure {
    /// Reads the classification facts and the display text of a reqwest error.
    pub fn from_reqwest_error(error: &reqwest::Error) -> (r: TransportFailure)
        ensures
            r.is_connect == connect_of(*error),
            r.is_timeout == timeout_of(*error),
            r.status == status_code_of(*error),
            r.status matches Some(code) ==> 100 <= code <= 999,
            to_string_from_display_ensures::<reqwest::Error>(error, r.detail),
    {
        TransportFailure {
            is_connect: error.is_connect(),
            is_timeout: error.is_timeout(),
            status: status_code(error),
            detail: error.to_string(),
        }
    }
}

impl FetchError {
    /// Classifies a reqwest error raised by the request to `url`; the detail
    /// is the error's display text.
    pub fn from_reqwest_error(error: &reqwest::Error, url: &str) -> (r: FetchError)
        ensures
            r.url@ == url@,
            r.kind == kind_of(connect_of(*error), timeout_of(*error), status_code_of(*error)),
            r.kind matches FetchErrorKind::Status(code) ==> 100 <= code <= 999,
            exists|s: String|
                to_string_from_display_ensures::<reqwest::Error>(error, s) && s@ == r.detail@,
    {
        let failure = TransportFailure::from_reqwest_error(error);
        let r = FetchError::from_failure(&failure, url);
        assert(to_string_from_display_ensures::<reqwest::Error>(error, failure.detail)
            && failure.detail@ == r.detail@);
        r
    }
}

} // verus!
