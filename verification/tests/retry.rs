// The retry budget and the backoff schedule.

use internetdata::error::{Origin, Refusal, RetryAfter};
use internetdata::retry::{Backoff, RetryStep, RETRY_BASE_DELAY_MS};
use internetdata::Error;

fn refused(status: u16, retry_after: Option<&str>) -> Error {
    Error::Refused(Refusal {
        origin: Origin::Api,
        status,
        reason: None,
        retry_after: RetryAfter::from_header(retry_after),
    })
}

#[test]
fn a_server_fault_is_retried_up_to_the_budget_on_a_doubling_schedule() {
    let fault = refused(503, None);
    let mut backoff = Backoff::new(2);
    assert_eq!(backoff.after_failure(&fault), RetryStep::WaitThenRetry(250));
    assert_eq!(backoff.after_failure(&fault), RetryStep::WaitThenRetry(500));
    assert_eq!(backoff.after_failure(&fault), RetryStep::GiveUp);
    assert_eq!(backoff.remaining, 0);
    assert_eq!(RETRY_BASE_DELAY_MS, 250);
}

#[test]
fn a_non_retryable_refusal_is_handed_back_at_once() {
    for err in [refused(404, None), refused(429, None), refused(403, None)] {
        let mut backoff = Backoff::new(3);
        assert_eq!(backoff.after_failure(&err), RetryStep::GiveUp);
        assert_eq!(backoff.remaining, 3);
    }
}

#[test]
fn the_servers_retry_after_wins_over_the_schedule() {
    let throttle = refused(429, Some("1"));
    let mut backoff = Backoff::new(2);
    assert_eq!(backoff.after_failure(&throttle), RetryStep::WaitThenRetry(1000));
    // The schedule still advanced underneath the named wait.
    assert_eq!(backoff.after_failure(&refused(503, None)), RetryStep::WaitThenRetry(500));
}

#[test]
fn a_throttle_past_the_ceiling_waits_the_schedule() {
    let throttle = refused(429, Some("2147484"));
    let mut backoff = Backoff::new(1);
    assert_eq!(backoff.after_failure(&throttle), RetryStep::WaitThenRetry(250));
}

#[test]
fn a_zero_budget_never_retries() {
    let mut backoff = Backoff::new(0);
    assert_eq!(backoff.after_failure(&refused(503, None)), RetryStep::GiveUp);
}

#[test]
fn the_schedule_doubles_until_a_duration_would_overflow() {
    let mut backoff = Backoff::new(u32::MAX);
    let fault = refused(500, None);
    let mut doublings = 0;
    while backoff.can_double() {
        backoff.after_failure(&fault);
        doublings += 1;
    }
    assert_eq!(doublings, 65);
    assert_eq!(backoff.delay_ms, 250u128 << 65);
}

#[test]
fn a_wait_splits_into_seconds_and_nanoseconds() {
    assert_eq!(internetdata::retry::wait_parts(250), (0, 250_000_000));
    assert_eq!(internetdata::retry::wait_parts(1000), (1, 0));
    assert_eq!(internetdata::retry::wait_parts(2147483647), (2147483, 647_000_000));
    assert_eq!(
        internetdata::retry::wait_parts(internetdata::retry::LONGEST_DELAY_MS),
        (u64::MAX, 999_000_000)
    );
}

#[test]
fn the_upcoming_step_is_the_step_taken_and_leaves_the_schedule_alone() {
    let fault = refused(503, None);
    let mut backoff = Backoff::new(1);
    assert_eq!(backoff.upcoming_step(&fault), RetryStep::WaitThenRetry(250));
    assert_eq!(backoff.delay_ms, 250);
    assert_eq!(backoff.after_failure(&fault), RetryStep::WaitThenRetry(250));
    assert_eq!(backoff.upcoming_step(&fault), RetryStep::GiveUp);
    assert_eq!(backoff.upcoming_step(&refused(429, Some("3"))), RetryStep::GiveUp);
    assert_eq!(Backoff::new(2).upcoming_step(&refused(429, Some("3"))), RetryStep::WaitThenRetry(3000));
}
