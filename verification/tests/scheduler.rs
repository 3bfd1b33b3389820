use retryable::options::RetryOptions;
use retryable::schedule::FailureAction;

#[test]
fn nonretryable_aborts_immediately() {
    let options = RetryOptions { retry_timeout: 500_000, initial_backoff: 100_000, max_backoff: 200_000 };
    let mut state = options.start(0);
    let before = state;
    let action = state.on_failure_with(false, 10, 1618);
    assert_eq!(action, FailureAction::Abort);
    assert_eq!(state, before);
}

#[test]
fn zero_budget_aborts_on_first_failure() {
    let options = RetryOptions { retry_timeout: 0, initial_backoff: 100_000, max_backoff: 200_000 };
    let mut state = options.start(7);
    assert_eq!(state.deadline, 7);
    let action = state.on_failure_with(true, 7, 1618);
    assert_eq!(action, FailureAction::Abort);
}

#[test]
fn scenario_two_retryable_failures_then_success() {
    let options = RetryOptions { retry_timeout: 500_000, initial_backoff: 100_000, max_backoff: 200_000 };
    let mut state = options.start(0);
    assert_eq!(state.deadline, 500_000);
    assert_eq!(state.backoff, 100_000);

    let first = state.on_failure_with(true, 10_000, 1618);
    assert_eq!(first, FailureAction::Sleep(100_000));
    assert_eq!(state.backoff, 161_800);

    let second = state.on_failure_with(true, 450_000, 2000);
    assert_eq!(second, FailureAction::Sleep(50_000));
    assert_eq!(state.backoff, 200_000);
}

#[test]
fn final_sleep_truncated_to_remaining() {
    let options = RetryOptions { retry_timeout: 100_000, initial_backoff: 300_000, max_backoff: 300_000 };
    let mut state = options.start(0);
    let action = state.on_failure_with(true, 70_000, 2000);
    assert_eq!(action, FailureAction::Sleep(30_000));
}

#[test]
fn deadline_check_happens_before_sleep() {
    let options = RetryOptions { retry_timeout: 100_000, initial_backoff: 100, max_backoff: 200 };
    let mut state = options.start(0);
    let action = state.on_failure_with(true, 100_000, 1700);
    assert_eq!(action, FailureAction::Abort);
    let late = state.on_failure_with(true, 250_000, 1700);
    assert_eq!(late, FailureAction::Abort);
}

#[test]
fn backoff_growth_random_within_bounds() {
    let options = RetryOptions { retry_timeout: u64::MAX, initial_backoff: 1_000, max_backoff: 1_000_000_000 };
    let mut state = options.start(0);
    for _ in 0..12 {
        let old = state.backoff;
        let action = state.on_failure(true, 0);
        assert!(matches!(action, FailureAction::Sleep(_)));
        assert!(state.backoff >= old);
        assert!(state.backoff <= options.max_backoff);
        if state.backoff < options.max_backoff {
            assert!(state.backoff >= old * 1618 / 1000);
            assert!(state.backoff <= old * 2000 / 1000);
        }
    }
}

#[test]
fn grown_backoff_capped_at_max() {
    let options = RetryOptions { retry_timeout: u64::MAX, initial_backoff: 150_000, max_backoff: 200_000 };
    let mut state = options.start(0);
    let action = state.on_failure_with(true, 0, 2000);
    assert_eq!(action, FailureAction::Sleep(150_000));
    assert_eq!(state.backoff, 200_000);
    let again = state.on_failure_with(true, 0, 2000);
    assert_eq!(again, FailureAction::Sleep(200_000));
    assert_eq!(state.backoff, 200_000);
}

#[test]
fn deadline_saturates_at_end_of_time() {
    let options = RetryOptions { retry_timeout: u64::MAX, initial_backoff: 1, max_backoff: 2 };
    let state = options.start(25);
    assert_eq!(state.deadline, u64::MAX);
}

#[test]
fn retries_then_succeeds_within_budget() {
    let rt = tokio::runtime::Builder::new_current_thread().enable_time().build().unwrap();
    rt.block_on(async {
        let options = RetryOptions { retry_timeout: 500_000, initial_backoff: 100_000, max_backoff: 200_000 };
        let begin = std::time::Instant::now();
        let mut state = options.start(0);
        let mut attempts: u32 = 0;
        let mut slept_total: u64 = 0;
        let result: Result<u32, ()> = loop {
            attempts += 1;
            let outcome: Result<u32, ()> = if attempts <= 2 { Err(()) } else { Ok(attempts) };
            match outcome {
                Ok(v) => break Ok(v),
                Err(e) => {
                    let now = begin.elapsed().as_micros() as u64;
                    match state.on_failure(true, now) {
                        FailureAction::Abort => break Err(e),
                        FailureAction::Sleep(d) => {
                            slept_total += d;
                            tokio::time::sleep(std::time::Duration::from_micros(d)).await;
                        }
                    }
                }
            }
        };
        let elapsed = begin.elapsed().as_micros() as u64;
        assert_eq!(result, Ok(3));
        assert_eq!(attempts, 3);
        assert!(slept_total >= 100_000);
        assert!(elapsed >= slept_total);
        assert!(elapsed < 500_000);
    });
}
