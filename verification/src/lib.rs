//! A retry-with-backoff primitive: a classification model that says which
//! failures are worth retrying, an error wrapper that carries that
//! classification beside an opaque cause, and a scheduler that decides,
//! after each failure, whether to give up or how long to sleep before the
//! next attempt.
//!
//! All durations and points in time are measured in whole microseconds.

pub mod errors;
pub mod options;
pub mod schedule;
pub mod transport;
