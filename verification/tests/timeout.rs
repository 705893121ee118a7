use aurora_client::errors::Error;
use aurora_client::poll::Polled;
use aurora_client::timeout::TimeoutGuard;

const SECOND: u64 = 1_000_000_000;

type Answer = Polled<u32, Error<String>>;

#[test]
fn guard_starts_with_the_whole_timeout() {
    let guard = TimeoutGuard::new(15 * SECOND, 2 * SECOND);
    assert!(!guard.is_expired());
    assert_eq!(guard.deadline(), 17 * SECOND);
}

#[test]
fn silence_shorter_than_the_timeout_is_accepted() {
    let mut guard = TimeoutGuard::new(15 * SECOND, 0);
    let answer: Answer = guard.observe(Polled::NotReady, 15 * SECOND - 1);
    assert_eq!(answer, Polled::NotReady);
    assert!(!guard.is_expired());
}

#[test]
fn silence_of_the_whole_timeout_times_out() {
    let mut guard = TimeoutGuard::new(15 * SECOND, 0);
    let answer: Answer = guard.observe(Polled::NotReady, 15 * SECOND);
    assert_eq!(answer, Polled::Failed(Error::TimedOut));
    assert!(guard.is_expired());
}

#[test]
fn item_starts_the_timeout_anew() {
    let mut guard = TimeoutGuard::new(15 * SECOND, 0);
    let answer: Answer = guard.observe(Polled::Ready(Some(7)), 10 * SECOND);
    assert_eq!(answer, Polled::Ready(Some(7)));
    assert_eq!(guard.deadline(), 25 * SECOND);
    let answer: Answer = guard.observe(Polled::NotReady, 24 * SECOND);
    assert_eq!(answer, Polled::NotReady);
    let answer: Answer = guard.observe(Polled::NotReady, 25 * SECOND);
    assert_eq!(answer, Polled::Failed(Error::TimedOut));
}

#[test]
fn item_that_comes_as_the_timeout_strikes_still_passes() {
    let mut guard = TimeoutGuard::new(15 * SECOND, 0);
    let answer: Answer = guard.observe(Polled::Ready(Some(7)), 20 * SECOND);
    assert_eq!(answer, Polled::Ready(Some(7)));
    assert!(!guard.is_expired());
}

#[test]
fn timed_out_guard_gives_no_further_item() {
    let mut guard = TimeoutGuard::new(15 * SECOND, 0);
    let _: Answer = guard.observe(Polled::NotReady, 15 * SECOND);
    let answer: Answer = guard.observe(Polled::Ready(Some(7)), 16 * SECOND);
    assert_eq!(answer, Polled::Failed(Error::TimedOut));
    let answer: Answer = guard.observe(Polled::Ready(None), 17 * SECOND);
    assert_eq!(answer, Polled::Failed(Error::TimedOut));
    let answer: Answer = guard.observe(Polled::NotReady, 0);
    assert_eq!(answer, Polled::Failed(Error::TimedOut));
    assert!(guard.is_expired());
}

#[test]
fn failure_of_the_source_passes_unchanged() {
    let mut guard = TimeoutGuard::new(15 * SECOND, 0);
    let answer: Answer =
        guard.observe(Polled::Failed(Error::ConnectionLost { peer_closed: true }), 20 * SECOND);
    assert_eq!(answer, Polled::Failed(Error::ConnectionLost { peer_closed: true }));
    assert!(!guard.is_expired());
}

#[test]
fn end_of_the_source_passes_unchanged() {
    let mut guard = TimeoutGuard::new(15 * SECOND, 0);
    let answer: Answer = guard.observe(Polled::Ready(None), 20 * SECOND);
    assert_eq!(answer, Polled::Ready(None));
    assert_eq!(guard.deadline(), 15 * SECOND);
}

#[test]
fn restart_gives_the_whole_timeout_again() {
    let mut guard = TimeoutGuard::new(15 * SECOND, 0);
    let _: Answer = guard.observe(Polled::NotReady, 15 * SECOND);
    guard.restart(40 * SECOND);
    assert!(!guard.is_expired());
    assert_eq!(guard.deadline(), 55 * SECOND);
}

#[test]
fn clock_that_runs_backwards_does_not_time_out() {
    let mut guard = TimeoutGuard::new(15 * SECOND, 100 * SECOND);
    let answer: Answer = guard.observe(Polled::NotReady, 0);
    assert_eq!(answer, Polled::NotReady);
}

#[test]
fn guard_deadline_saturates_at_the_end_of_the_clock() {
    let mut guard = TimeoutGuard::new(u64::MAX, 5);
    assert_eq!(guard.deadline(), u64::MAX);
    let answer: Answer = guard.observe(Polled::NotReady, u64::MAX);
    assert_eq!(answer, Polled::NotReady);
}
