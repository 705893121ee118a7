//! One session: the paired source behind the rate limiter behind the timeout
//! guard, with every reading that comes through uploaded before the next is
//! asked for.

use vstd::prelude::*;
use crate::errors::{Error, SessionOutcome};
use crate::measurement::{
    energy_voltage_stream,
    Cycle,
    DeviceAddress,
    PairedMeasurementSource,
    Pulled,
    Reading,
    Request,
    Response,
    SourceState,
};
use crate::policy::PollPolicy;
use crate::poll::Polled;
use crate::ratelimitedstream::{Attempt, LimiterState, RateLimitedStream, Step, StreamExt};
use crate::timeout::{GuardState, TimeoutGuard};
use crate::upload::{settle, upload_request, UploadOutcome, Uploaded};

verus! {

/// Where a session stands.
#[derive(Clone, Copy, Debug, PartialEq, Eq, Structural)]
pub enum Stage {
    /// The connection to the device is being opened.
    Connecting,
    /// Readings are being asked for.
    Polling,
    /// A reading is being uploaded; nothing else goes on meanwhile.
    Uploading,
    /// The session is over.
    Ended,
}

/// What happened since the session's last action.
pub enum SessionEvent<V, E> {
    /// The connection to the device stands.
    Connected,
    /// The connection to the device could not be opened.
    ConnectFailed { peer_closed: bool },
    /// The call to the device ended: with the device's answer, or with the
    /// failure of the call.
    Replied(Result<Response<V>, Error<E>>),
    /// The upload ended.
    Uploaded(UploadOutcome),
    /// Time has passed, and nothing else.
    Tick,
}

/// What the caller does next.
#[derive(Debug, PartialEq)]
pub enum SessionAction<V, E> {
    /// Send this request to the device and report how the call ended.
    Call { address: DeviceAddress, request: Request },
    /// Upload this reading and report how the upload ended.
    Upload(Reading<V>),
    /// Nothing to do until something happens or time passes.
    Wait,
    /// The session is over with this outcome: close the connection.
    Finish(SessionOutcome<E>),
    /// The session was over before.
    Closed,
}

/// The session's answer to an event.
#[derive(Debug, PartialEq)]
pub struct Turn<V, E> {
    /// The status with which the endpoint refused the upload that has just
    /// ended, if it did: worth a warning, and nothing more.
    pub rejected: Option<u16>,
    pub action: SessionAction<V, E>,
}

/// What one poll through the rate limiter gives.
pub struct Limited<V, E> {
    pub source: SourceState<V, E>,
    pub limiter: LimiterState,
    pub answer: Polled<Reading<V>, Error<E>>,
    pub request: Option<Request>,
}

/// The session's state as contracts see it.
pub struct SessionState<V, E> {
    pub stage: Stage,
    pub address: DeviceAddress,
    pub source: SourceState<V, E>,
    pub limiter: LimiterState,
    pub guard: GuardState,
}

impl<V, E> SessionState<V, E> {
    /// The state of a session that is about to connect.
    pub open spec fn fresh(policy: PollPolicy, address: DeviceAddress) -> SessionState<V, E> {
        SessionState {
            stage: Stage::Connecting,
            address,
            source: SourceState::fresh(),
            limiter: LimiterState::fresh(policy.min_interval() as nat, policy.warmup_passes() as nat),
            guard: GuardState::fresh(policy.timeout() as nat, 0),
        }
    }

    /// One poll of the source through the rate limiter at `now`: the limiter
    /// says whether the source is polled, and once more after a warm-up poll
    /// that found nothing.
    pub open spec fn limited(self, now: nat) -> Limited<V, E> {
        let (begun, demand) = self.limiter.begin(now);
        match demand {
            None => Limited {
                source: self.source,
                limiter: begun,
                answer: Polled::NotReady,
                request: None,
            },
            Some(phase) => {
                let (source, first) = self.source.poll();
                let (limiter, step) = begun.resume(phase, first.answer, now);
                match step {
                    Step::Done(answer) => Limited { source, limiter, answer, request: first.request },
                    Step::Ask(again) => {
                        let (source, second) = source.poll();
                        let (limiter, step) = limiter.resume(again, second.answer, now);
                        Limited {
                            source,
                            limiter,
                            answer: match step {
                                Step::Done(answer) => answer,
                                Step::Ask(_) => Polled::NotReady,
                            },
                            request: if first.request is Some {
                                first.request
                            } else {
                                second.request
                            },
                        }
                    },
                }
            },
        }
    }

    /// One poll of the whole chain at `now`, and what the session does with
    /// the answer: a reading is uploaded, the end of the source and a failure
    /// end the session, and where nothing is ready the request that the poll
    /// made, if any, goes to the device.
    pub open spec fn pull(self, now: nat) -> (SessionState<V, E>, SessionAction<V, E>) {
        let limited = self.limited(now);
        let (guard, guarded) = self.guard.observe(limited.answer, now);
        let polled = SessionState { source: limited.source, limiter: limited.limiter, guard, ..self };
        match guarded {
            Polled::Ready(Some(reading)) => (
                SessionState { stage: Stage::Uploading, ..polled },
                SessionAction::Upload(reading),
            ),
            Polled::Ready(None) => (
                SessionState { stage: Stage::Ended, ..polled },
                SessionAction::Finish(SessionOutcome::Completed),
            ),
            Polled::Failed(e) => (
                SessionState { stage: Stage::Ended, ..polled },
                SessionAction::Finish(SessionOutcome::of_error(e)),
            ),
            Polled::NotReady => (
                polled,
                match limited.request {
                    Some(request) => SessionAction::Call { address: self.address, request },
                    None => SessionAction::Wait,
                },
            ),
        }
    }

    /// The session's transition at `now`.
    ///
    /// While connecting, the session waits for the connection: once it
    /// stands, the timeout starts and the chain is polled; if it fails, the
    /// session ends with the connection lost. While polling, an answer of the
    /// device is handed to the source, and the chain is polled. While
    /// uploading, only the end of the upload counts: after a transport
    /// failure the session ends, after any answer of the endpoint the chain
    /// is polled again.
    pub open spec fn step(self, event: SessionEvent<V, E>, now: nat) -> (
        SessionState<V, E>,
        Turn<V, E>,
    ) {
        match self.stage {
            Stage::Ended => (self, Turn { rejected: None, action: SessionAction::Closed }),
            Stage::Connecting => match event {
                SessionEvent::Connected => {
                    let started = SessionState {
                        stage: Stage::Polling,
                        guard: GuardState::fresh(self.guard.timeout, now),
                        ..self
                    };
                    let (next, action) = started.pull(now);
                    (next, Turn { rejected: None, action })
                },
                SessionEvent::ConnectFailed { peer_closed } => (
                    SessionState { stage: Stage::Ended, ..self },
                    Turn {
                        rejected: None,
                        action: SessionAction::Finish(
                            SessionOutcome::ConnectionLost { peer_closed },
                        ),
                    },
                ),
                _ => (self, Turn { rejected: None, action: SessionAction::Wait }),
            },
            Stage::Polling => {
                let delivered = match event {
                    SessionEvent::Replied(reply) => SessionState {
                        source: self.source.deliver(reply),
                        ..self
                    },
                    _ => self,
                };
                let (next, action) = delivered.pull(now);
                (next, Turn { rejected: None, action })
            },
            Stage::Uploading => match event {
                SessionEvent::Uploaded(outcome) => match settle::<E>(outcome) {
                    Err(e) => (
                        SessionState { stage: Stage::Ended, ..self },
                        Turn {
                            rejected: None,
                            action: SessionAction::Finish(SessionOutcome::of_error(e)),
                        },
                    ),
                    Ok(uploaded) => {
                        let resumed = SessionState { stage: Stage::Polling, ..self };
                        let (next, action) = resumed.pull(now);
                        (
                            next,
                            Turn {
                                rejected: match uploaded {
                                    Uploaded::Accepted => None,
                                    Uploaded::Rejected { status } => Some(status),
                                },
                                action,
                            },
                        )
                    },
                },
                _ => (self, Turn { rejected: None, action: SessionAction::Wait }),
            },
        }
    }

    /// When to report a `SessionEvent::Tick` at the latest, if nothing else
    /// happens before: when the timeout would strike, or, if that comes
    /// first, when the rate limiter's pending deadline elapses. No time
    /// matters while the session connects or uploads, or once it is over.
    pub open spec fn wake_at(self, now: nat) -> Option<nat> {
        if self.stage == Stage::Polling {
            let timeout = self.guard.since + self.guard.timeout;
            match self.limiter.armed_at {
                Some(armed) if now < armed + self.limiter.delay && armed + self.limiter.delay
                    < timeout => Some(armed + self.limiter.delay),
                _ => Some(timeout),
            }
        } else {
            None
        }
    }
}

/// One polling and uploading run against one device connection.
pub struct Session<V, E> {
    stage: Stage,
    limited: RateLimitedStream<PairedMeasurementSource<V, E>>,
    guard: TimeoutGuard,
}

impl<V, E> View for Session<V, E> {
    type V = SessionState<V, E>;

    closed spec fn view(&self) -> SessionState<V, E> {
        SessionState {
            stage: self.stage,
            address: self.limited.inner().address(),
            source: self.limited.inner()@,
            limiter: self.limited@,
            guard: self.guard@,
        }
    }
}

impl<V, E> Session<V, E> {
    /// A session with the device at `address` under `policy`, about to
    /// connect.
    pub fn new(policy: &PollPolicy, address: DeviceAddress) -> (session: Session<V, E>)
        ensures
            session@ == SessionState::<V, E>::fresh(*policy, address),
    {
        Session {
            stage: Stage::Connecting,
            limited: energy_voltage_stream(address).rate_limited(
                policy.min_interval(),
                policy.warmup_passes(),
            ),
            guard: TimeoutGuard::new(policy.timeout(), 0),
        }
    }

    /// Where the session stands.
    pub fn stage(&self) -> (stage: Stage)
        ensures
            stage == self@.stage,
    {
        self.stage
    }

    /// When to report a tick at the latest, saturating at the clock's end.
    pub fn wake_at(&self, now: u64) -> (due: Option<u64>)
        ensures
            due is Some <==> self@.wake_at(now as nat) is Some,
            due matches Some(d) ==> d == if self@.wake_at(now as nat).unwrap() <= u64::MAX {
                self@.wake_at(now as nat).unwrap()
            } else {
                u64::MAX as nat
            },
    {
        match self.stage {
            Stage::Polling => {
                let timeout = self.guard.deadline();
                match self.limited.deadline() {
                    Some(due) if now < due && due < timeout => Some(due),
                    _ => Some(timeout),
                }
            },
            _ => None,
        }
    }

    fn poll_limited(&mut self, now: u64) -> (pulled: Pulled<V, E>)
        ensures
            final(self).stage == old(self).stage,
            final(self).guard == old(self).guard,
            final(self).limited.inner().address() == old(self).limited.inner().address(),
            old(self)@.limited(now as nat) == (Limited {
                source: final(self).limited.inner()@,
                limiter: final(self).limited@,
                answer: pulled.answer,
                request: pulled.request,
            }),
    {
        match self.limited.poll(now) {
            None => Pulled { answer: Polled::NotReady, request: None },
            Some(phase) => {
                let first = self.limited.get_mut().poll();
                match self.limited.supply(phase, first.answer, now) {
                    Step::Done(answer) => Pulled { answer, request: first.request },
                    Step::Ask(again) => {
                        let second = self.limited.get_mut().poll();
                        let answer = match self.limited.supply(again, second.answer, now) {
                            Step::Done(answer) => answer,
                            Step::Ask(_) => Polled::NotReady,
                        };
                        let request = if first.request.is_some() {
                            first.request
                        } else {
                            second.request
                        };
                        Pulled { answer, request }
                    },
                }
            },
        }
    }

    fn pull(&mut self, now: u64) -> (action: SessionAction<V, E>)
        ensures
            (final(self)@, action) == old(self)@.pull(now as nat),
    {
        let pulled = self.poll_limited(now);
        match self.guard.observe(pulled.answer, now) {
            Polled::Ready(Some(reading)) => {
                self.stage = Stage::Uploading;
                SessionAction::Upload(reading)
            },
            Polled::Ready(None) => {
                self.stage = Stage::Ended;
                SessionAction::Finish(SessionOutcome::Completed)
            },
            Polled::Failed(e) => {
                self.stage = Stage::Ended;
                SessionAction::Finish(SessionOutcome::from_error(e))
            },
            Polled::NotReady => match pulled.request {
                Some(request) => SessionAction::Call {
                    address: self.limited.get_ref().device(),
                    request,
                },
                None => SessionAction::Wait,
            },
        }
    }
}

/// One turn of a session: takes what happened, at `now` on the caller's
/// monotonic clock, and says what to do next.
pub fn mainloop<V, E>(session: &mut Session<V, E>, event: SessionEvent<V, E>, now: u64) -> (turn:
    Turn<V, E>)
    ensures
        (final(session)@, turn) == old(session)@.step(event, now as nat),
{
    match session.stage {
        Stage::Ended => Turn { rejected: None, action: SessionAction::Closed },
        Stage::Connecting => match event {
            SessionEvent::Connected => {
                session.stage = Stage::Polling;
                session.guard.restart(now);
                Turn { rejected: None, action: session.pull(now) }
            },
            SessionEvent::ConnectFailed { peer_closed } => {
                session.stage = Stage::Ended;
                Turn {
                    rejected: None,
                    action: SessionAction::Finish(SessionOutcome::ConnectionLost { peer_closed }),
                }
            },
            _ => Turn { rejected: None, action: SessionAction::Wait },
        },
        Stage::Polling => {
            match event {
                SessionEvent::Replied(reply) => {
                    session.limited.get_mut().deliver(reply);
                },
                _ => {},
            }
            Turn { rejected: None, action: session.pull(now) }
        },
        Stage::Uploading => match event {
            SessionEvent::Uploaded(outcome) => match upload_request::<E>(outcome) {
                Err(e) => {
                    session.stage = Stage::Ended;
                    Turn {
                        rejected: None,
                        action: SessionAction::Finish(SessionOutcome::from_error(e)),
                    }
                },
                Ok(uploaded) => {
                    session.stage = Stage::Polling;
                    let rejected = match uploaded {
                        Uploaded::Accepted => None,
                        Uploaded::Rejected { status } => Some(status),
                    };
                    Turn { rejected, action: session.pull(now) }
                },
            },
            _ => Turn { rejected: None, action: SessionAction::Wait },
        },
    }
}

/// A moment of a session: what happened, and when.
pub struct Input<V, E> {
    pub event: SessionEvent<V, E>,
    pub now: nat,
}

impl<V, E> SessionState<V, E> {
    /// The state after all inputs of `run`, in order.
    pub open spec fn after(self, run: Seq<Input<V, E>>) -> SessionState<V, E>
        decreases run.len(),
    {
        if run.len() == 0 {
            self
        } else {
            self.after(run.drop_last()).step(run.last().event, run.last().now).0
        }
    }

    /// The session's answer to input `k` of `run`.
    pub open spec fn turn_at(self, run: Seq<Input<V, E>>, k: int) -> Turn<V, E> {
        self.after(run.take(k)).step(run[k].event, run[k].now).1
    }
}

/// Input `k` leads from the state before it to the state before the next.
pub proof fn lemma_after_next<V, E>(init: SessionState<V, E>, run: Seq<Input<V, E>>, k: int)
    requires
        0 <= k < run.len(),
    ensures
        init.after(run.take(k + 1)) == init.after(run.take(k)).step(run[k].event, run[k].now).0,
{
    assert(run.take(k + 1).drop_last() =~= run.take(k));
    assert(run.take(k + 1).last() == run[k]);
}

/// Inside a session the rate limiter makes whole poll attempts, with the
/// answers of the paired source: what is proved of a limiter's attempts holds
/// of the session's.
pub proof fn lemma_session_polls_by_attempts<V, E>(state: SessionState<V, E>, now: nat)
    ensures
        (state.limited(now).limiter, state.limited(now).answer) == state.limiter.attempt(
            Attempt {
                now,
                first: state.source.poll().1.answer,
                second: state.source.poll().0.poll().1.answer,
            },
        ),
{
}

/// A request that a poll has made goes to the device: the poll that made it
/// is the only one of the turn to make one, and it gives nothing else, so
/// that the turn ends with the call, or with the timeout.
pub proof fn lemma_requests_reach_the_device<V, E>(state: SessionState<V, E>, now: nat)
    requires
        state.limited(now).request is Some,
    ensures
        state.limited(now).answer is NotReady,
        state.limited(now).request == state.source.poll().1.request,
        state.limited(now).source.awaiting(),
        state.pull(now).1 == (SessionAction::<V, E>::Call {
            address: state.address,
            request: state.limited(now).request.unwrap(),
        }) || state.pull(now).1 == SessionAction::<V, E>::Finish(SessionOutcome::TimedOut),
{
}

/// A reading is uploaded in the turn in which the chain gives it, and the
/// session then does nothing but upload.
pub proof fn lemma_readings_are_uploaded_as_they_come<V, E>(
    state: SessionState<V, E>,
    now: nat,
    reading: Reading<V>,
)
    requires
        state.pull(now).1 == SessionAction::<V, E>::Upload(reading),
    ensures
        state.limited(now).answer == Polled::<Reading<V>, Error<E>>::Ready(Some(reading)),
        !state.guard.expired,
        state.pull(now).0.stage == Stage::Uploading,
{
}

/// One upload at a time, and nothing beside it: from the turn that starts an
/// upload until the upload has ended, the session answers everything with
/// `SessionAction::Wait`, and its state stays as it is.
pub proof fn lemma_uploads_do_not_overlap<V, E>(
    init: SessionState<V, E>,
    run: Seq<Input<V, E>>,
    k: int,
    j: int,
)
    requires
        0 <= k < j < run.len(),
        init.turn_at(run, k).action is Upload,
        forall|m: int| k < m <= j ==> !((#[trigger] run[m]).event is Uploaded),
    ensures
        init.turn_at(run, j) == (Turn::<V, E> { rejected: None, action: SessionAction::Wait }),
        init.after(run.take(j + 1)) == init.after(run.take(k + 1)),
        init.after(run.take(k + 1)).stage == Stage::Uploading,
    decreases j - k,
{
    lemma_after_next(init, run, k);
    lemma_after_next(init, run, j);
    if k + 1 < j {
        lemma_uploads_do_not_overlap(init, run, k, j - 1);
    }
    assert(!(run[j].event is Uploaded));
}

/// After an upload whose transport failed the session is over: it ends with
/// `SessionOutcome::UploadTransportFailed`, and no later turn uploads
/// anything or calls the device.
pub proof fn lemma_nothing_follows_a_transport_failure<V, E>(
    init: SessionState<V, E>,
    run: Seq<Input<V, E>>,
    k: int,
    j: int,
)
    requires
        0 <= k < j < run.len(),
        init.after(run.take(k)).stage == Stage::Uploading,
        run[k].event == SessionEvent::<V, E>::Uploaded(UploadOutcome::TransportFailed),
    ensures
        init.turn_at(run, k).action == SessionAction::<V, E>::Finish(
            SessionOutcome::UploadTransportFailed,
        ),
        init.after(run.take(j)).stage == Stage::Ended,
        init.turn_at(run, j) == (Turn::<V, E> { rejected: None, action: SessionAction::Closed }),
    decreases j - k,
{
    lemma_after_next(init, run, k);
    if k + 1 < j {
        lemma_nothing_follows_a_transport_failure(init, run, k, j - 1);
        lemma_after_next(init, run, j - 1);
    }
}

/// An upload that the endpoint answers, with whatever status, does not stop
/// the session: the chain is polled in the same turn, and the status is
/// reported where it is a refusal.
pub proof fn lemma_refusals_do_not_stop_the_session<V, E>(
    state: SessionState<V, E>,
    status: u16,
    now: nat,
)
    requires
        state.stage == Stage::Uploading,
    ensures
        state.step(SessionEvent::Uploaded(UploadOutcome::Status(status)), now).0 == (SessionState {
            stage: Stage::Polling,
            ..state
        }).pull(now).0,
        state.step(SessionEvent::Uploaded(UploadOutcome::Status(status)), now).1.action
            == (SessionState { stage: Stage::Polling, ..state }).pull(now).1,
        state.step(SessionEvent::Uploaded(UploadOutcome::Status(status)), now).1.rejected == if status
            == crate::upload::STATUS_OK {
            None
        } else {
            Some(status)
        },
{
}

/// What a session uploads, the device has measured: a reading is uploaded
/// only in a turn that finds the energy call of the cycle answered with this
/// energy and the voltage call with this voltage.
pub proof fn lemma_uploaded_reading_was_measured<V, E>(
    state: SessionState<V, E>,
    now: nat,
    reading: Reading<V>,
)
    requires
        state.pull(now).1 == SessionAction::<V, E>::Upload(reading),
    ensures
        state.source.cycle == (Cycle::AwaitingVoltage::<V> {
            energy: Response::CumulativeEnergy { value: reading.cumulative_energy_wh },
        }),
        state.source.reply == Some(
            Ok::<Response<V>, Error<E>>(Response::Measure { val: reading.instant_voltage }),
        ),
{
}

} // verus!
