//! The polling policy of a session.

use vstd::prelude::*;
use crate::errors::ConfigInvalid;

verus! {

/// The number of readings that a session lets pass without waiting.
pub const WARMUP_PASSES: u64 = 2;

/// How a session polls: the least time between two polls of the device, the
/// number of readings that pass at once when the session starts, and the
/// longest silence that the session survives. Times are in nanoseconds. The
/// timeout exceeds the interval.
#[derive(Clone, Copy, Debug, PartialEq, Eq)]
pub struct PollPolicy {
    min_interval: u64,
    warmup_passes: u64,
    timeout: u64,
}

impl PollPolicy {
    #[verifier::type_invariant]
    spec fn timeout_exceeds_interval(self) -> bool {
        self.timeout > self.min_interval
    }

    pub closed spec fn spec_min_interval(&self) -> u64 {
        self.min_interval
    }

    pub closed spec fn spec_warmup_passes(&self) -> u64 {
        self.warmup_passes
    }

    pub closed spec fn spec_timeout(&self) -> u64 {
        self.timeout
    }

    /// The policy with these three values, refused where the timeout does
    /// not exceed the interval.
    pub fn new(min_interval: u64, warmup_passes: u64, timeout: u64) -> (policy: Result<
        PollPolicy,
        ConfigInvalid,
    >)
        ensures
            timeout > min_interval ==> policy is Ok,
            timeout <= min_interval ==> policy == Err::<PollPolicy, _>(
                ConfigInvalid::TimeoutTooShort,
            ),
            policy matches Ok(p) ==> p.min_interval() == min_interval && p.warmup_passes()
                == warmup_passes && p.timeout() == timeout,
    {
        if timeout > min_interval {
            Ok(PollPolicy { min_interval, warmup_passes, timeout })
        } else {
            Err(ConfigInvalid::TimeoutTooShort)
        }
    }

    /// The policy of a session that polls every `poll_duration` nanoseconds
    /// and gives up after `timeout_mul` such intervals of silence, with
    /// `WARMUP_PASSES` readings passing at once. It is refused where the
    /// product does not fit the clock, and where it does not exceed the
    /// interval: with an interval of zero, or a multiplier below two.
    pub fn from_multiplier(poll_duration: u64, timeout_mul: u32) -> (policy: Result<
        PollPolicy,
        ConfigInvalid,
    >)
        ensures
            poll_duration * timeout_mul > u64::MAX ==> policy == Err::<PollPolicy, _>(
                ConfigInvalid::TimeoutOutOfRange,
            ),
            poll_duration * timeout_mul <= poll_duration ==> policy == Err::<PollPolicy, _>(
                ConfigInvalid::TimeoutTooShort,
            ),
            poll_duration < poll_duration * timeout_mul <= u64::MAX ==> policy is Ok,
            policy matches Ok(p) ==> p.min_interval() == poll_duration && p.warmup_passes()
                == WARMUP_PASSES && p.timeout() == poll_duration * timeout_mul,
    {
        match poll_duration.checked_mul(timeout_mul as u64) {
            Some(timeout) => PollPolicy::new(poll_duration, WARMUP_PASSES, timeout),
            None => {
                proof {
                    assert(poll_duration * timeout_mul > poll_duration) by (nonlinear_arith)
                        requires
                            poll_duration * timeout_mul > u64::MAX,
                            poll_duration <= u64::MAX,
                    ;
                }
                Err(ConfigInvalid::TimeoutOutOfRange)
            },
        }
    }

    /// The least time between two polls of the device.
    #[verifier::when_used_as_spec(spec_min_interval)]
    pub fn min_interval(&self) -> (nanos: u64)
        ensures
            nanos == self.min_interval(),
    {
        self.min_interval
    }

    /// The number of readings that pass at once.
    #[verifier::when_used_as_spec(spec_warmup_passes)]
    pub fn warmup_passes(&self) -> (passes: u64)
        ensures
            passes == self.warmup_passes(),
    {
        self.warmup_passes
    }

    /// The longest silence that the session survives. It exceeds the
    /// interval.
    #[verifier::when_used_as_spec(spec_timeout)]
    pub fn timeout(&self) -> (nanos: u64)
        ensures
            nanos == self.timeout(),
            nanos > self.min_interval(),
    {
        proof {
            use_type_invariant(self);
        }
        self.timeout
    }
}

} // verus!
