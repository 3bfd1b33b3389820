//! Configuration for a retry sequence: the total time budget, the delay
//! before the first retry, and the ceiling on delay growth.
//!
//! All three values are durations in microseconds.

use vstd::prelude::*;

verus! {

/// Total time budget of the default profile: ten minutes, in microseconds.
pub const DEFAULT_RETRY_TIMEOUT: u64 = 600_000_000;

/// Initial backoff of the default profile: one hundred milliseconds.
pub const DEFAULT_INITIAL_BACKOFF: u64 = 100_000;

/// Backoff ceiling of the default profile: ten seconds.
pub const DEFAULT_MAX_BACKOFF: u64 = 10_000_000;

/// Configuration of one retry sequence. `retry_timeout` is the overall
/// budget measured from the first attempt; once it has elapsed no further
/// attempt is made. `initial_backoff` is the delay before the second
/// attempt, and `max_backoff` caps all later delay growth. For meaningful
/// behaviour `initial_backoff <= max_backoff` should hold; it is not
/// enforced.
#[derive(Clone, Copy, Debug, PartialEq, Eq, Structural)]
pub struct RetryOptions {
    /// Total time budget in microseconds, measured from the first attempt.
    pub retry_timeout: u64,
    /// Delay in microseconds before the second attempt.
    pub initial_backoff: u64,
    /// Ceiling in microseconds on backoff growth.
    pub max_backoff: u64,
}

impl Default for RetryOptions {
    /// The default profile: a ten-minute budget, 100 ms initial backoff,
    /// 10 s maximum backoff.
    fn default() -> (r: Self)
        ensures
            r.retry_timeout == DEFAULT_RETRY_TIMEOUT,
            r.initial_backoff == DEFAULT_INITIAL_BACKOFF,
            r.max_backoff == DEFAULT_MAX_BACKOFF,
    {
        Self {
            retry_timeout: DEFAULT_RETRY_TIMEOUT,
            initial_backoff: DEFAULT_INITIAL_BACKOFF,
            max_backoff: DEFAULT_MAX_BACKOFF,
        }
    }
}

/// The profile for dependencies under heavy load: the same ten-minute
/// budget, but a longer 1 s initial backoff and a 60 s ceiling.
pub fn heavy_loaded_options() -> (r: RetryOptions)
    ensures
        r.retry_timeout == DEFAULT_RETRY_TIMEOUT,
        r.initial_backoff == 1_000_000,
        r.max_backoff == 60_000_000,
{
    RetryOptions {
        retry_timeout: DEFAULT_RETRY_TIMEOUT,
        initial_backoff: 1_000_000,
        max_backoff: 60_000_000,
    }
}

} // verus!
