use retryable::errors::Error;
use retryable::errors::IsRetryable;
use retryable::errors::ok;
use retryable::options::RetryOptions;
use retryable::options::heavy_loaded_options;
use retryable::transport::transport_retryable;

fn rate_limited_error(status: u16) -> reqwest::Error {
    let response = http::Response::builder().status(status).body("busy").unwrap();
    reqwest::Response::from(response).error_for_status().unwrap_err()
}

#[test]
fn unclassified_cause_is_fatal() {
    let wrapper = Error::from(anyhow::Error::msg("disk on fire"));
    assert!(!wrapper.is_retryable());
}

#[test]
fn always_retryable_regardless_of_cause() {
    let wrapper = Error::always_retryable(anyhow::Error::msg("rate limited"));
    assert!(wrapper.is_retryable());
    let other = Error::always_retryable(anyhow::Error::msg("disk on fire"));
    assert!(other.is_retryable());
}

#[test]
fn display_and_debug_pass_through() {
    let cause = anyhow::Error::msg("boom");
    let expected_display = format!("{}", cause);
    let expected_debug = format!("{:?}", cause);
    let wrapper = Error::from(cause);
    assert_eq!(wrapper.message(), expected_display);
    assert_eq!(wrapper.debug_message(), expected_debug);
}

#[test]
fn unwrapping_returns_the_cause() {
    let wrapper = Error::always_retryable(anyhow::Error::msg("boom"));
    let cause = anyhow::Error::from(wrapper);
    assert_eq!(format!("{}", cause), "boom");
}

#[test]
fn ok_wraps_a_success() {
    let r = ok(41u32);
    assert!(matches!(r, Ok(41)));
}

#[test]
fn transport_rate_limit_is_retryable() {
    let err = rate_limited_error(429);
    assert!(err.is_retryable());
    let wrapper: Error = err.into();
    assert!(wrapper.is_retryable());
}

#[test]
fn transport_other_status_is_fatal() {
    let err = rate_limited_error(503);
    assert!(!err.is_retryable());
    let wrapper = Error::classified(rate_limited_error(503));
    assert!(!wrapper.is_retryable());
}

#[test]
fn transport_status_rule() {
    assert!(transport_retryable(Some(429)));
    assert!(!transport_retryable(Some(503)));
    assert!(!transport_retryable(Some(200)));
    assert!(!transport_retryable(None));
}

#[test]
fn default_options_profile() {
    let options = RetryOptions::default();
    assert_eq!(options.retry_timeout, 600_000_000);
    assert_eq!(options.initial_backoff, 100_000);
    assert_eq!(options.max_backoff, 10_000_000);
}

#[test]
fn heavy_loaded_profile() {
    let options = heavy_loaded_options();
    assert_eq!(options.retry_timeout, 600_000_000);
    assert_eq!(options.initial_backoff, 1_000_000);
    assert_eq!(options.max_backoff, 60_000_000);
}
