//! The daylight scheduler: polling runs between sunrise and sunset, and the
//! process sleeps for the rest of the day.

use vstd::prelude::*;
use crate::calendar::{TimeOfDay, NANOS_PER_DAY};
use crate::errors::SessionOutcome;

verus! {

/// The part of a calendar day during which polling runs: from `start`
/// (sunrise) up to, and not including, `end` (sunset).
#[derive(Clone, Copy, Debug, PartialEq, Eq)]
pub struct DaylightWindow {
    pub start: TimeOfDay,
    pub end: TimeOfDay,
}

impl DaylightWindow {
    /// Whether `now` lies in the window.
    pub open spec fn spec_contains(&self, now: &TimeOfDay) -> bool {
        self.start@ <= now@ < self.end@
    }

    /// The time from `now` to the start of the window on the following day:
    /// what is left of today, and then from midnight to sunrise.
    pub open spec fn sleep_from(self, now: TimeOfDay) -> nat {
        ((NANOS_PER_DAY - now@) + self.start@) as nat
    }

    /// Whether `now` lies in the window.
    #[verifier::when_used_as_spec(spec_contains)]
    pub fn contains(&self, now: &TimeOfDay) -> (inside: bool)
        ensures
            inside == self.contains(now),
    {
        self.start.nanos() <= now.nanos() && now.nanos() < self.end.nanos()
    }

    /// How long to sleep from `now`, in nanoseconds.
    pub fn time_to_sunrise(&self, now: &TimeOfDay) -> (nanos: u64)
        ensures
            nanos == self.sleep_from(*now),
    {
        (NANOS_PER_DAY - now.nanos()) + self.start.nanos()
    }
}

/// Where the scheduler stands.
#[derive(Clone, Copy, Debug, PartialEq, Eq, Structural)]
pub enum SchedulerState {
    /// Waiting for today's window and the time of day.
    Deciding,
    /// A session is running.
    Active,
    /// Sleeping until the next sunrise.
    Sleeping,
    /// A session failed for good; nothing more happens.
    Stopped,
}

/// What happened since the scheduler's last action.
pub enum SchedulerEvent<E> {
    /// Today's window was computed and the clock was read.
    Window { window: DaylightWindow, now: TimeOfDay },
    /// The running session ended.
    SessionEnded(SessionOutcome<E>),
    /// The sleep is over.
    Woke,
}

/// What the caller does next.
#[derive(Debug, PartialEq, Eq)]
pub enum SchedulerAction<E> {
    /// Compute today's window, read the clock, and report both.
    ComputeWindow,
    /// Run one session to its end and report the outcome.
    RunSession,
    /// Sleep for this many nanoseconds, then report that the sleep is over.
    Sleep(u64),
    /// Give the outcome to the host as a fatal failure.
    Abort(SessionOutcome<E>),
}

/// Whether `event` is the answer to the action that led to `state`.
pub open spec fn expects<E>(state: SchedulerState, event: SchedulerEvent<E>) -> bool {
    match state {
        SchedulerState::Deciding => event is Window,
        SchedulerState::Active => event is SessionEnded,
        SchedulerState::Sleeping => event is Woke,
        SchedulerState::Stopped => false,
    }
}

/// The scheduler's transition: the next state and the action to perform.
pub open spec fn transition<E>(state: SchedulerState, event: SchedulerEvent<E>) -> (
    SchedulerState,
    SchedulerAction<E>,
) {
    match event {
        SchedulerEvent::Window { window, now } => {
            if window.contains(&now) {
                (SchedulerState::Active, SchedulerAction::RunSession)
            } else {
                (SchedulerState::Sleeping, SchedulerAction::Sleep(window.sleep_from(now) as u64))
            }
        },
        SchedulerEvent::SessionEnded(outcome) => {
            if outcome.is_recoverable() {
                (SchedulerState::Deciding, SchedulerAction::ComputeWindow)
            } else {
                (SchedulerState::Stopped, SchedulerAction::Abort(outcome))
            }
        },
        SchedulerEvent::Woke => (SchedulerState::Deciding, SchedulerAction::ComputeWindow),
    }
}

/// The state in which the scheduler starts. Its first action is
/// `SchedulerAction::ComputeWindow`.
pub fn initial_state() -> (state: SchedulerState)
    ensures
        state == SchedulerState::Deciding,
{
    SchedulerState::Deciding
}

/// One turn of the scheduler's endless loop.
///
/// With the window and the clock in hand it starts a session inside the
/// window and sleeps until the next sunrise outside it. When a session ends it
/// goes straight back to computing the window if the session completed or the
/// peer closed the connection, and stops with the outcome otherwise. After a
/// sleep it computes the window anew.
pub fn run_service<E>(state: SchedulerState, event: SchedulerEvent<E>) -> (next: (
    SchedulerState,
    SchedulerAction<E>,
))
    requires
        expects(state, event),
    ensures
        next == transition(state, event),
{
    match event {
        SchedulerEvent::Window { window, now } => {
            if window.contains(&now) {
                (SchedulerState::Active, SchedulerAction::RunSession)
            } else {
                (SchedulerState::Sleeping, SchedulerAction::Sleep(window.time_to_sunrise(&now)))
            }
        },
        SchedulerEvent::SessionEnded(outcome) => {
            if outcome.is_recoverable() {
                (SchedulerState::Deciding, SchedulerAction::ComputeWindow)
            } else {
                (SchedulerState::Stopped, SchedulerAction::Abort(outcome))
            }
        },
        SchedulerEvent::Woke => (SchedulerState::Deciding, SchedulerAction::ComputeWindow),
    }
}

/// Outside the window the scheduler sleeps for what is left of today and
/// then from midnight to sunrise: it wakes when the clock, past midnight,
/// shows the time of today's sunrise. This holds before sunrise as it does
/// after sunset.
pub proof fn lemma_sleep_ends_at_sunrise_time<E>(window: DaylightWindow, now: TimeOfDay)
    requires
        now@ < NANOS_PER_DAY,
        window.start@ < NANOS_PER_DAY,
        !window.contains(&now),
    ensures
        transition::<E>(SchedulerState::Deciding, SchedulerEvent::Window { window, now }) == (
            SchedulerState::Sleeping,
            SchedulerAction::<E>::Sleep(((NANOS_PER_DAY - now@) + window.start@) as u64),
        ),
        now@ + (NANOS_PER_DAY - now@) + window.start@ == NANOS_PER_DAY + window.start@,
{
}

/// The window is looked at again only after the sleep: a sleeping scheduler
/// takes nothing but the end of the sleep, and then asks for the window.
pub proof fn lemma_window_is_rechecked_after_sleep<E>(event: SchedulerEvent<E>)
    requires
        expects(SchedulerState::Sleeping, event),
    ensures
        event is Woke,
        transition(SchedulerState::Sleeping, event) == (
            SchedulerState::Deciding,
            SchedulerAction::<E>::ComputeWindow,
        ),
{
}

/// A session that the peer closed is followed by the next without any
/// sleep: the scheduler asks for the window at once, and inside the window
/// it runs a session again.
pub proof fn lemma_peer_closed_resumes_at_once<E>(window: DaylightWindow, now: TimeOfDay)
    requires
        window.contains(&now),
    ensures
        transition(
            SchedulerState::Active,
            SchedulerEvent::SessionEnded(SessionOutcome::<E>::ConnectionLost { peer_closed: true }),
        ) == (SchedulerState::Deciding, SchedulerAction::<E>::ComputeWindow),
        transition::<E>(SchedulerState::Deciding, SchedulerEvent::Window { window, now }) == (
            SchedulerState::Active,
            SchedulerAction::<E>::RunSession,
        ),
{
}

/// Every failure but the connection that the peer closed is fatal: the
/// scheduler stops and hands the outcome to the host.
pub proof fn lemma_other_failures_are_fatal<E>(outcome: SessionOutcome<E>)
    requires
        !(outcome is Completed),
        outcome != (SessionOutcome::<E>::ConnectionLost { peer_closed: true }),
    ensures
        transition(SchedulerState::Active, SchedulerEvent::SessionEnded(outcome)) == (
            SchedulerState::Stopped,
            SchedulerAction::Abort(outcome),
        ),
{
}

} // verus!
