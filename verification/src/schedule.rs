//! The retry scheduler: the decision core of the retry loop.
//!
//! A retry sequence starts from a [`crate::options::RetryOptions`] value and
//! a starting time, which fix the absolute deadline and the first backoff.
//! After every failed attempt the caller reports whether the failure was
//! retryable and what time it is; the scheduler answers either "give up" or
//! "sleep this long and try again", growing the backoff with randomized
//! jitter for the next round. The loop that actually invokes the operation
//! and sleeps lives outside; everything it decides is decided here.
//!
//! All times and durations are in microseconds. Points in time are measured
//! on one monotone clock per retry sequence.

use vstd::prelude::*;

use crate::options::RetryOptions;

verus! {

/// Lower bound, in thousandths, of the random growth factor applied to the
/// backoff after each retryable failure.
pub const JITTER_LOW: u64 = 1618;

/// Upper bound, in thousandths, of the random growth factor.
pub const JITTER_HIGH: u64 = 2000;

/// What the scheduler tells the caller to do after a failed attempt:
/// either give up and surface the failure, or sleep for the given number
/// of microseconds and then attempt again.
#[derive(Clone, Copy, Debug, PartialEq, Eq, Structural)]
pub enum FailureAction {
    /// Return the current failure to the caller; make no further attempt.
    Abort,
    /// Sleep for this many microseconds, then invoke the operation again.
    Sleep(u64),
}

/// The mutable state of one retry sequence: the absolute deadline fixed at
/// the start, the delay to use before the next retry, and the ceiling that
/// delay may grow to.
#[derive(Clone, Copy, Debug, PartialEq, Eq, Structural)]
pub struct RetryState {
    /// Absolute point in time after which no further attempt is made.
    pub deadline: u64,
    /// Delay before the next retry, in microseconds.
    pub backoff: u64,
    /// Ceiling on backoff growth, copied from the options.
    pub max_backoff: u64,
}

/// The smaller of two durations.
pub open spec fn min_dur(a: u64, b: u64) -> u64 {
    if a <= b {
        a
    } else {
        b
    }
}

/// The deadline of a sequence that starts at `now` with budget
/// `retry_timeout`: their sum, saturating at the end of time.
pub open spec fn spec_deadline(now: u64, retry_timeout: u64) -> u64 {
    if now + retry_timeout <= u64::MAX {
        (now + retry_timeout) as u64
    } else {
        u64::MAX
    }
}

/// The state a retry sequence is in at its start.
pub open spec fn spec_start(options: RetryOptions, now: u64) -> RetryState {
    RetryState {
        deadline: spec_deadline(now, options.retry_timeout),
        backoff: options.initial_backoff,
        max_backoff: options.max_backoff,
    }
}

/// The backoff after one retryable failure: unchanged once it has reached
/// `max_backoff`; otherwise multiplied by `jitter` thousandths and clamped
/// to `max_backoff`.
pub open spec fn spec_grown_backoff(backoff: u64, jitter: u64, max_backoff: u64) -> u64 {
    if backoff >= max_backoff {
        backoff
    } else if (backoff as int) * (jitter as int) / 1000 >= max_backoff as int {
        max_backoff
    } else {
        ((backoff as int) * (jitter as int) / 1000) as u64
    }
}

/// One decision of the scheduler, as a pure function: given the state after
/// the previous failure, whether the new failure is retryable, the current
/// time, and the jitter drawn for this round, it yields the next state and
/// the action. A non-retryable failure, or one observed at or past the
/// deadline, aborts at once and leaves the state unchanged. Otherwise the
/// sequence sleeps for the backoff, truncated to the time left before the
/// deadline, and the backoff grows for the round after.
pub open spec fn spec_step(st: RetryState, retryable: bool, now: u64, jitter: u64) -> (
    RetryState,
    FailureAction,
) {
    if !retryable {
        (st, FailureAction::Abort)
    } else if now >= st.deadline {
        (st, FailureAction::Abort)
    } else {
        let sleep = min_dur(st.backoff, (st.deadline - now) as u64);
        let grown = RetryState {
            backoff: spec_grown_backoff(st.backoff, jitter, st.max_backoff),
            ..st
        };
        (grown, FailureAction::Sleep(sleep))
    }
}

impl RetryOptions {
    /// Begin a retry sequence at time `now`: the deadline is fixed once,
    /// here, and the backoff starts at `initial_backoff`.
    pub fn start(&self, now: u64) -> (r: RetryState)
        ensures
            r == spec_start(*self, now),
    {
        let deadline: u64 = if now <= u64::MAX - self.retry_timeout {
            now + self.retry_timeout
        } else {
            u64::MAX
        };
        RetryState { deadline, backoff: self.initial_backoff, max_backoff: self.max_backoff }
    }
}

/// The grown backoff, computed without overflow: the product is taken in
/// 128-bit arithmetic and clamped to `max_backoff` before narrowing.
fn grow_backoff(backoff: u64, jitter: u64, max_backoff: u64) -> (r: u64)
    ensures
        r == spec_grown_backoff(backoff, jitter, max_backoff),
{
    if backoff >= max_backoff {
        backoff
    } else {
        proof {
            assert((backoff as int) * (jitter as int) <= (u64::MAX as int) * (u64::MAX as int))
                by (nonlinear_arith)
                requires
                    backoff <= u64::MAX,
                    jitter <= u64::MAX,
            ;
        }
        let product: u128 = (backoff as u128) * (jitter as u128);
        let grown: u128 = product / 1000;
        if grown >= max_backoff as u128 {
            max_backoff
        } else {
            grown as u64
        }
    }
}

/// Relies on rand::random_range: a value drawn uniformly from the given
/// inclusive range lies within that range. Nothing further is assumed of
/// the draw.
#[verifier::external_body]
fn draw_jitter() -> (r: u64)
    ensures
        JITTER_LOW <= r <= JITTER_HIGH,
{
    rand::random_range(JITTER_LOW..=JITTER_HIGH)
}

impl RetryState {
    /// Decide what to do after a failed attempt, drawing the jitter for
    /// this round at random. Whatever is drawn, the decision and the new
    /// state are [`spec_step`] of the old state for some growth factor
    /// within the jitter bounds.
    pub fn on_failure(&mut self, retryable: bool, now: u64) -> (r: FailureAction)
        ensures
            exists|jitter: u64|
                #![auto]
                JITTER_LOW <= jitter <= JITTER_HIGH && (*final(self), r) == spec_step(
                    *old(self),
                    retryable,
                    now,
                    jitter,
                ),
    {
        let jitter = draw_jitter();
        self.on_failure_with(retryable, now, jitter)
    }

    /// Decide what to do after a failed attempt, with the jitter for this
    /// round given by the caller. The decision and the new state are exactly
    /// [`spec_step`] of the old state.
    pub fn on_failure_with(&mut self, retryable: bool, now: u64, jitter: u64) -> (r: FailureAction)
        requires
            JITTER_LOW <= jitter <= JITTER_HIGH,
        ensures
            (*final(self), r) == spec_step(*old(self), retryable, now, jitter),
    {
        if !retryable {
            return FailureAction::Abort;
        }
        if now >= self.deadline {
            return FailureAction::Abort;
        }
        let remaining: u64 = self.deadline - now;
        let sleep: u64 = if self.backoff <= remaining {
            self.backoff
        } else {
            remaining
        };
        self.backoff = grow_backoff(self.backoff, jitter, self.max_backoff);
        FailureAction::Sleep(sleep)
    }
}

/// A non-retryable failure aborts the sequence at once, whenever it
/// happens and whatever the state: no sleep is ordered, no further attempt
/// is made, and the state is left as it was.
pub proof fn lemma_nonretryable_aborts(st: RetryState, now: u64, jitter: u64)
    ensures
        spec_step(st, false, now, jitter) == (st, FailureAction::Abort),
{
}

/// With a zero time budget the deadline is the starting instant itself, so
/// the very first failure — however quickly it is observed — already lies
/// at or past the deadline and aborts the sequence: the operation is
/// invoked exactly once.
pub proof fn lemma_zero_budget_aborts(options: RetryOptions, start: u64, now: u64, jitter: u64)
    requires
        options.retry_timeout == 0,
        start <= now,
    ensures
        spec_step(spec_start(options, start), true, now, jitter) == (
            spec_start(options, start),
            FailureAction::Abort,
        ),
{
}

/// The backoff never decreases from one retryable failure to the next:
/// the growth factor is at least `JITTER_LOW` thousandths, more than one.
pub proof fn lemma_backoff_never_decreases(st: RetryState, now: u64, jitter: u64)
    requires
        JITTER_LOW <= jitter <= JITTER_HIGH,
    ensures
        spec_step(st, true, now, jitter).0.backoff >= st.backoff,
{
    if now < st.deadline && st.backoff < st.max_backoff {
        assert((st.backoff as int) * (jitter as int) / 1000 >= st.backoff as int)
            by (nonlinear_arith)
            requires
                jitter >= 1000,
                st.backoff >= 0,
        ;
    }
}

/// The backoff never exceeds the ceiling: once at or below `max_backoff`
/// it stays at or below it after any retryable failure.
pub proof fn lemma_backoff_never_exceeds_max(st: RetryState, now: u64, jitter: u64)
    requires
        st.backoff <= st.max_backoff,
    ensures
        spec_step(st, true, now, jitter).0.backoff <= st.max_backoff,
{
}

/// A retryable failure observed before the deadline always orders a sleep,
/// and that sleep never overshoots the budget: it is at most the time left
/// before the deadline, and when the backoff would last longer it is
/// truncated to exactly the remaining time.
pub proof fn lemma_sleep_truncated(st: RetryState, now: u64, jitter: u64)
    requires
        now < st.deadline,
    ensures
        spec_step(st, true, now, jitter).1 == FailureAction::Sleep(
            min_dur(st.backoff, (st.deadline - now) as u64),
        ),
        min_dur(st.backoff, (st.deadline - now) as u64) <= st.deadline - now,
        min_dur(st.backoff, (st.deadline - now) as u64) <= st.backoff,
        st.backoff >= st.deadline - now ==> spec_step(st, true, now, jitter).1
            == FailureAction::Sleep((st.deadline - now) as u64),
{
}

/// Whether the scheduler answers every failure of a run of retryable
/// failures with a sleep rather than an abort. Each observation is a pair
/// of the time the failure was observed and the jitter drawn for it.
pub open spec fn always_sleeps(st: RetryState, observations: Seq<(u64, u64)>) -> bool
    decreases observations.len(),
{
    if observations.len() == 0 {
        true
    } else {
        let next = spec_step(st, true, observations[0].0, observations[0].1);
        next.1 is Sleep && always_sleeps(next.0, observations.drop_first())
    }
}

/// The sleep a single decision orders, as a duration; zero when it aborts.
pub open spec fn sleep_of(a: FailureAction) -> int {
    match a {
        FailureAction::Abort => 0,
        FailureAction::Sleep(d) => d as int,
    }
}

/// The total of the sleeps the scheduler orders along a run of retryable
/// failures.
pub open spec fn total_sleep(st: RetryState, observations: Seq<(u64, u64)>) -> int
    decreases observations.len(),
{
    if observations.len() == 0 {
        0
    } else {
        let next = spec_step(st, true, observations[0].0, observations[0].1);
        sleep_of(next.1) + total_sleep(next.0, observations.drop_first())
    }
}

/// Whether a run of observations is consistent with a clock driving the
/// retry loop: every failure is observed before the deadline, and after
/// the ordered sleep the next failure cannot be observed earlier than the
/// sleep's end.
pub open spec fn clock_consistent(st: RetryState, observations: Seq<(u64, u64)>) -> bool
    decreases observations.len(),
{
    if observations.len() == 0 {
        true
    } else {
        let next = spec_step(st, true, observations[0].0, observations[0].1);
        observations[0].0 < st.deadline && (observations.len() > 1
            ==> observations[1].0 as int >= observations[0].0 as int + sleep_of(next.1))
            && clock_consistent(next.0, observations.drop_first())
    }
}

/// An operation that fails retryably again and again, each failure
/// observed before the deadline, is never given up on: the scheduler
/// answers every failure with a sleep, so an operation that fails that way
/// exactly N times and then succeeds is invoked exactly N + 1 times.
pub proof fn lemma_keeps_retrying(st: RetryState, observations: Seq<(u64, u64)>)
    requires
        forall|k: int|
            0 <= k < observations.len() ==> (#[trigger] observations[k]).0 < st.deadline,
    ensures
        always_sleeps(st, observations),
    decreases observations.len(),
{
    if observations.len() > 0 {
        let next = spec_step(st, true, observations[0].0, observations[0].1);
        let tail = observations.drop_first();
        assert(next.0.deadline == st.deadline);
        assert forall|k: int| 0 <= k < tail.len() implies (#[trigger] tail[k]).0
            < next.0.deadline by {
            assert(tail[k] == observations[k + 1]);
        }
        lemma_keeps_retrying(next.0, tail);
    }
}

/// Along any clock-consistent run of retryable failures the ordered sleeps
/// never total more than the time that was left when the first failure was
/// observed: the budget is never overshot.
pub proof fn lemma_sleeps_within_remaining(st: RetryState, observations: Seq<(u64, u64)>)
    requires
        clock_consistent(st, observations),
        observations.len() > 0,
    ensures
        total_sleep(st, observations) <= st.deadline - observations[0].0,
    decreases observations.len(),
{
    let next = spec_step(st, true, observations[0].0, observations[0].1);
    let tail = observations.drop_first();
    assert(next.0.deadline == st.deadline);
    assert(sleep_of(next.1) <= st.deadline - observations[0].0);
    assert(total_sleep(st, observations) == sleep_of(next.1) + total_sleep(next.0, tail));
    if tail.len() > 0 {
        assert(tail[0] == observations[1]);
        assert(clock_consistent(next.0, tail));
        lemma_sleeps_within_remaining(next.0, tail);
        assert(total_sleep(next.0, tail) <= st.deadline - tail[0].0);
        assert(tail[0].0 as int >= observations[0].0 + sleep_of(next.1));
    } else {
        assert(total_sleep(next.0, tail) == 0);
    }
}

/// Along any clock-consistent run of a sequence begun at `start`, the
/// ordered sleeps total at most the configured budget.
pub proof fn lemma_sleeps_within_budget(
    options: RetryOptions,
    start: u64,
    observations: Seq<(u64, u64)>,
)
    requires
        clock_consistent(spec_start(options, start), observations),
        observations.len() > 0,
        start <= observations[0].0,
    ensures
        total_sleep(spec_start(options, start), observations) <= options.retry_timeout,
{
    lemma_sleeps_within_remaining(spec_start(options, start), observations);
}

} // verus!
