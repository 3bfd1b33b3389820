//! The built-in classification for transport failures: an HTTP request
//! error is worth retrying exactly when the server answered "too many
//! requests", the rate-limiting status. Every other transport failure —
//! timeouts, connection resets, other client or server errors, name
//! resolution — is classified non-retryable here; a caller that wants a
//! broader policy wraps its errors as always-retryable instead.

use reqwest::Error as ReqwestError;
use vstd::prelude::*;

use crate::errors::Error;
use crate::errors::IsRetryable;

verus! {

/// The HTTP status code that signals rate limiting: too many requests.
pub const TOO_MANY_REQUESTS: u16 = 429;

/// The opaque type of transport failures.
///
/// Relies on the type `reqwest::Error` existing; nothing is assumed of the
/// values it takes.
#[verifier::external_type_specification]
#[verifier::external_body]
pub struct ExReqwestError(ReqwestError);

/// What HTTP status a transport failure carries: the numeric code stored
/// in the error when it was generated from a response, and nothing when it
/// was not. It depends on the error value alone.
pub uninterp spec fn status_of(e: reqwest::Error) -> Option<u16>;

/// Whether a transport failure with the given status is worth retrying:
/// exactly when the status is "too many requests".
pub open spec fn spec_transport_retryable(status: Option<u16>) -> bool {
    status == Some(TOO_MANY_REQUESTS)
}

/// Relies on `reqwest::Error::status`: it returns the status code stored
/// in the error, present exactly when the error was generated from a
/// response, converted here to its numeric value.
#[verifier::external_body]
fn status_code(e: &reqwest::Error) -> (r: Option<u16>)
    ensures
        r == status_of(*e),
{
    e.status().map(|s: reqwest::StatusCode| s.as_u16())
}

/// Whether a transport failure carrying this status is worth retrying.
pub fn transport_retryable(status: Option<u16>) -> (r: bool)
    ensures
        r == spec_transport_retryable(status),
{
    match status {
        Some(code) => code == TOO_MANY_REQUESTS,
        None => false,
    }
}

impl IsRetryable for reqwest::Error {
    open spec fn retryable_spec(&self) -> bool {
        spec_transport_retryable(status_of(*self))
    }

    fn is_retryable(&self) -> (r: bool) {
        let status = status_code(self);
        transport_retryable(status)
    }
}

impl From<reqwest::Error> for Error {
    /// Wrap a transport failure, copying the built-in classification; the
    /// exact relation is stated on [`Error::classified`], which
    /// this delegates to.
    fn from(error: reqwest::Error) -> (r: Error) {
        Error::classified(error)
    }
}

impl vstd::std_specs::convert::FromSpecImpl<reqwest::Error> for Error {
    open spec fn obeys_from_spec() -> bool {
        false
    }

    open spec fn from_spec(error: reqwest::Error) -> Error {
        arbitrary()
    }
}

} // verus!
