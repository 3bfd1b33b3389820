//! The classification capability and the classified error wrapper.
//!
//! Any error type can implement [`IsRetryable`] to declare whether a retry
//! is expected to help. [`Error`] pairs an opaque underlying cause with
//! such a classification, fixed when the wrapper is built: explicitly
//! always-retryable, copied from a type that carries the capability, or
//! `false` by default for a cause with no known classification.

use anyhow::Error as AnyhowError;
use vstd::prelude::*;

verus! {

/// The classification capability: a pure query answering whether retrying
/// the operation that produced this failure is expected to help.
pub trait IsRetryable {
    /// The classification this value reports, at the specification level.
    spec fn retryable_spec(&self) -> bool;

    /// Whether retrying the operation that produced this failure is
    /// expected to help.
    fn is_retryable(&self) -> (r: bool)
        ensures
            r == self.retryable_spec(),
    ;
}

/// The opaque type of underlying causes.
///
/// Relies on the type `anyhow::Error` existing; nothing is assumed of the
/// values it takes.
#[verifier::external_type_specification]
#[verifier::external_body]
pub struct ExAnyhowError(AnyhowError);

/// What the underlying cause's own user-facing text is: the characters
/// that `anyhow::Error`'s `Display` implementation writes, which depend on
/// the error value alone.
pub uninterp spec fn display_of(e: anyhow::Error) -> Seq<char>;

/// What the underlying cause's own diagnostic text is: the characters that
/// `anyhow::Error`'s `Debug` implementation writes, which depend on the
/// error value alone (a captured backtrace is part of the value).
pub uninterp spec fn debug_of(e: anyhow::Error) -> Seq<char>;

/// Relies on `anyhow::Error`'s `Display` implementation: it writes the
/// user-facing text of the error value, and nothing else decides what is
/// written.
#[verifier::external_body]
fn format_cause(e: &anyhow::Error) -> (r: String)
    ensures
        r@ == display_of(*e),
{
    format!("{}", e)
}

/// Relies on `anyhow::Error`'s `Debug` implementation: it writes the
/// diagnostic text of the error value, and nothing else decides what is
/// written.
#[verifier::external_body]
fn format_cause_debug(e: &anyhow::Error) -> (r: String)
    ensures
        r@ == debug_of(*e),
{
    format!("{:?}", e)
}

/// An error together with its retry classification. The underlying cause
/// is owned, opaque, and carried unchanged; the flag is fixed when the
/// wrapper is built and never changes afterwards (both fields are
/// private and no operation writes them).
pub struct Error {
    error: anyhow::Error,
    is_retryable: bool,
}

impl Error {
    /// The underlying cause this wrapper carries.
    pub closed spec fn cause(self) -> anyhow::Error {
        self.error
    }

    /// The classification this wrapper carries.
    pub closed spec fn retryable(self) -> bool {
        self.is_retryable
    }

    /// Wrap a cause the caller knows to be transient: the classification
    /// is `true` whatever the cause is.
    pub fn always_retryable(error: anyhow::Error) -> (r: Error)
        ensures
            r.retryable() == true,
            r.cause() == error,
    {
        Error { error, is_retryable: true }
    }

    /// The wrapper's user-facing text: exactly the underlying cause's own,
    /// with nothing added.
    pub fn message(&self) -> (r: String)
        ensures
            r@ == display_of(self.cause()),
    {
        format_cause(&self.error)
    }

    /// The wrapper's diagnostic text: exactly the underlying cause's own,
    /// with nothing added.
    pub fn debug_message(&self) -> (r: String)
        ensures
            r@ == debug_of(self.cause()),
    {
        format_cause_debug(&self.error)
    }
}

/// Relies on `anyhow::Error::new`: it boxes the given error as an opaque
/// cause. Nothing is assumed of the value it builds.
#[verifier::external_body]
fn box_cause<E: std::error::Error + Send + Sync + 'static>(error: E) -> (r: anyhow::Error) {
    anyhow::Error::new(error)
}

impl Error {
    /// Wrap an error that carries the classification capability: the
    /// capability's own answer becomes the wrapper's flag, and the error
    /// itself is erased behind the opaque cause.
    pub fn classified<E: IsRetryable + std::error::Error + Send + Sync + 'static>(error: E) -> (r:
        Error)
        ensures
            r.retryable() == error.retryable_spec(),
    {
        let is_retryable = error.is_retryable();
        Error { error: box_cause(error), is_retryable }
    }
}

impl IsRetryable for Error {
    open spec fn retryable_spec(&self) -> bool {
        self.retryable()
    }

    fn is_retryable(&self) -> (r: bool) {
        self.is_retryable
    }
}

impl From<anyhow::Error> for Error {
    /// Wrap a cause with no known classification: the safe default is to
    /// treat it as fatal rather than to loop on it.
    fn from(error: anyhow::Error) -> (r: Error) {
        Error { error, is_retryable: false }
    }
}

impl vstd::std_specs::convert::FromSpecImpl<anyhow::Error> for Error {
    open spec fn obeys_from_spec() -> bool {
        true
    }

    closed spec fn from_spec(error: anyhow::Error) -> Error {
        Error { error, is_retryable: false }
    }
}

/// A cause with no known classification is wrapped as non-retryable, and
/// carried unchanged.
pub proof fn lemma_unclassified_is_fatal(error: anyhow::Error)
    ensures
        (<Error as vstd::std_specs::convert::FromSpec<anyhow::Error>>::from_spec(
            error,
        )).retryable() == false,
        (<Error as vstd::std_specs::convert::FromSpec<anyhow::Error>>::from_spec(
            error,
        )).cause() == error,
{
}

impl From<Error> for anyhow::Error {
    /// Discard the classification and hand back the bare cause.
    fn from(val: Error) -> (r: anyhow::Error) {
        val.error
    }
}

impl vstd::std_specs::convert::FromSpecImpl<Error> for anyhow::Error {
    open spec fn obeys_from_spec() -> bool {
        true
    }

    open spec fn from_spec(val: Error) -> anyhow::Error {
        val.cause()
    }
}

/// The result type of operations run under the retry machinery: the error
/// position defaults to the classified wrapper.
pub type Result<T, E = Error> = core::result::Result<T, E>;

/// A success, under the defaulted [`Result`] alias.
pub fn ok<T>(value: T) -> (r: Result<T>)
    ensures
        r == Result::<T>::Ok(value),
{
    Result::Ok(value)
}

} // verus!
