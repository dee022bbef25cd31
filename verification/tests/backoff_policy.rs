//! Tests of the two backoff policies.

use reconnecting_connection::backoff::{
    internal_retry_iterator, RetryStrategy, MAX_RECONNECT_DELAY_MS,
};

#[test]
fn construction_delay_formula() {
    let policy = RetryStrategy::new(2, 100, 3);
    assert_eq!(policy.delay_at(0), 100);
    assert_eq!(policy.delay_at(1), 200);
    assert_eq!(policy.delay_at(2), 400);
    assert_eq!(policy.durations(), vec![100, 200, 400]);
}

#[test]
fn construction_delay_base_one_is_flat() {
    let policy = RetryStrategy::new(1, 250, 4);
    assert_eq!(policy.durations(), vec![250, 250, 250, 250]);
}

#[test]
fn construction_delay_base_zero_collapses() {
    let policy = RetryStrategy::new(0, 100, 3);
    assert_eq!(policy.durations(), vec![100, 0, 0]);
}

#[test]
fn construction_delay_zero_retries_is_empty() {
    let policy = RetryStrategy::new(2, 100, 0);
    assert_eq!(policy.durations(), Vec::<u64>::new());
}

#[test]
fn construction_delay_saturates() {
    let policy = RetryStrategy::new(2, 1, 70);
    assert_eq!(policy.delay_at(63), 1u64 << 63);
    assert_eq!(policy.delay_at(64), u64::MAX);
    assert_eq!(policy.delay_at(70), u64::MAX);
}

#[test]
fn reconnect_backoff_exact_prefix() {
    let mut backoff = internal_retry_iterator();
    let first: Vec<u64> = (0..5).map(|_| backoff.next_delay()).collect();
    assert_eq!(first, vec![100, 200, 400, 800, 1600]);
}

#[test]
fn reconnect_backoff_capped_and_never_exhausted() {
    let mut backoff = internal_retry_iterator();
    let mut previous = 0u64;
    for step in 0..200 {
        let delay = backoff.next_delay();
        assert!(delay <= MAX_RECONNECT_DELAY_MS);
        assert!(delay >= previous, "delay shrank at step {step}");
        if step >= 5 {
            assert_eq!(delay, MAX_RECONNECT_DELAY_MS);
        }
        previous = delay;
    }
}

#[test]
fn construction_attempt_count() {
    // number_of_retries = 3 bounds construction to one initial attempt plus
    // one more per backoff step: four attempts in all, and the last
    // underlying error is the one surfaced.
    let runtime = tokio::runtime::Builder::new_current_thread()
        .enable_time()
        .build()
        .unwrap();
    let policy = RetryStrategy::new(2, 1, 3);
    let delays: Vec<std::time::Duration> = policy
        .durations()
        .into_iter()
        .map(std::time::Duration::from_millis)
        .collect();
    let attempts = std::cell::Cell::new(0u32);
    let result: Result<(), u32> =
        runtime.block_on(tokio_retry::Retry::start(delays.into_iter(), || {
            attempts.set(attempts.get() + 1);
            let this_attempt = attempts.get();
            async move { Err::<(), u32>(this_attempt) }
        }));
    assert_eq!(attempts.get(), 4);
    assert_eq!(result.unwrap_err(), 4);
}
