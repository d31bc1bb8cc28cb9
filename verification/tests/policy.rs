//! Tests for the leaf policies: the sync-state tracker with its polling
//! loop, and the per-block retry decision.

use block_sync::retry::{FETCH_RETRY_INTERVAL_MS, FetchOutcome, RetryDecision, retry_step};
use block_sync::sync_state::{
    POLL_INTERVAL_MS, POLL_RETRY_INTERVAL_MS, PollOutcome, SyncState, poll_step,
};

/// The tracked height starts unknown and only ever moves forward.
#[test]
fn sync_state_is_monotonic() {
    let mut s = SyncState::new();
    assert_eq!(s.get(), None);
    assert!(!s.reached(0));
    s.set(5);
    assert_eq!(s.get(), Some(5));
    s.set(3);
    assert_eq!(s.get(), Some(5));
    s.set(9);
    assert_eq!(s.get(), Some(9));
    assert!(s.reached(9));
    assert!(s.reached(0));
    assert!(!s.reached(10));
}

/// A successful poll publishes the height and sleeps briefly; a failed poll
/// changes nothing and backs off for longer.
#[test]
fn poller_policy_intervals() {
    assert_eq!(POLL_INTERVAL_MS, 500);
    assert_eq!(POLL_RETRY_INTERVAL_MS, 5000);

    let mut s = SyncState::new();
    let d = poll_step(&mut s, PollOutcome::Height(17));
    assert_eq!(d, POLL_INTERVAL_MS);
    assert_eq!(s.get(), Some(17));

    let d = poll_step(&mut s, PollOutcome::PollError);
    assert_eq!(d, POLL_RETRY_INTERVAL_MS);
    assert_eq!(s.get(), Some(17));

    let d = poll_step(&mut s, PollOutcome::Height(4));
    assert_eq!(d, POLL_INTERVAL_MS);
    assert_eq!(s.get(), Some(17));
}

/// A found block is delivered with the requested number and the returned
/// payload.
#[test]
fn retry_delivers_found_block() {
    match retry_step(12, FetchOutcome::Found(vec![1, 2, 3])) {
        RetryDecision::Deliver(b) => {
            assert_eq!(b.number, 12);
            assert_eq!(b.payload, vec![1, 2, 3]);
        }
        _ => panic!("a found block must be delivered"),
    }
}

/// "Not yet available" and transient transport failures are both retried
/// after the same fixed interval, indefinitely.
#[test]
fn retry_waits_on_transient_conditions() {
    assert_eq!(FETCH_RETRY_INTERVAL_MS, 5000);
    assert!(matches!(
        retry_step(0, FetchOutcome::NotYetAvailable),
        RetryDecision::RetryAfterDelay
    ));
    assert!(matches!(
        retry_step(0, FetchOutcome::TransientError),
        RetryDecision::RetryAfterDelay
    ));
}

/// Any other error is permanent and aborts the pipeline.
#[test]
fn retry_aborts_on_permanent_error() {
    assert!(matches!(retry_step(0, FetchOutcome::PermanentError), RetryDecision::Abort));
}
