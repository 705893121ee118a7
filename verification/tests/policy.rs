use aurora_client::errors::ConfigInvalid;
use aurora_client::policy::{PollPolicy, WARMUP_PASSES};

const SECOND: u64 = 1_000_000_000;

#[test]
fn policy_keeps_its_values() {
    let policy = PollPolicy::new(5 * SECOND, 2, 15 * SECOND).unwrap();
    assert_eq!(policy.min_interval(), 5 * SECOND);
    assert_eq!(policy.warmup_passes(), 2);
    assert_eq!(policy.timeout(), 15 * SECOND);
}

#[test]
fn policy_refuses_a_timeout_equal_to_the_interval() {
    assert_eq!(PollPolicy::new(5 * SECOND, 2, 5 * SECOND), Err(ConfigInvalid::TimeoutTooShort));
}

#[test]
fn policy_refuses_a_timeout_below_the_interval() {
    assert_eq!(PollPolicy::new(5 * SECOND, 2, SECOND), Err(ConfigInvalid::TimeoutTooShort));
    assert_eq!(PollPolicy::new(0, 0, 0), Err(ConfigInvalid::TimeoutTooShort));
}

#[test]
fn policy_accepts_the_least_timeout_above_the_interval() {
    assert!(PollPolicy::new(5 * SECOND, 0, 5 * SECOND + 1).is_ok());
}

#[test]
fn multiplier_gives_the_timeout() {
    let policy = PollPolicy::from_multiplier(5 * SECOND, 3).unwrap();
    assert_eq!(policy.min_interval(), 5 * SECOND);
    assert_eq!(policy.warmup_passes(), WARMUP_PASSES);
    assert_eq!(policy.warmup_passes(), 2);
    assert_eq!(policy.timeout(), 15 * SECOND);
}

#[test]
fn multiplier_below_two_is_refused() {
    assert_eq!(PollPolicy::from_multiplier(5 * SECOND, 1), Err(ConfigInvalid::TimeoutTooShort));
    assert_eq!(PollPolicy::from_multiplier(5 * SECOND, 0), Err(ConfigInvalid::TimeoutTooShort));
}

#[test]
fn interval_of_zero_is_refused() {
    assert_eq!(PollPolicy::from_multiplier(0, 3), Err(ConfigInvalid::TimeoutTooShort));
}

#[test]
fn timeout_beyond_the_clock_is_refused() {
    assert_eq!(
        PollPolicy::from_multiplier(u64::MAX / 2 + 1, 2),
        Err(ConfigInvalid::TimeoutOutOfRange)
    );
    assert!(PollPolicy::from_multiplier(u64::MAX / 2, 2).is_ok());
}
