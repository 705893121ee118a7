//! The timeout guard: a source that stays silent for too long is ended with
//! a timeout.

use vstd::prelude::*;
use crate::errors::Error;
use crate::poll::Polled;

verus! {

/// The guard's state as contracts see it. Times are nanoseconds on the
/// caller's monotonic clock.
pub struct GuardState {
    /// When the last item came, or when the guard was made.
    pub since: nat,
    /// The longest silence that the guard accepts.
    pub timeout: nat,
    /// Whether the guard has timed out.
    pub expired: bool,
}

impl GuardState {
    /// The state of a guard made at `now`.
    pub open spec fn fresh(timeout: nat, now: nat) -> GuardState {
        GuardState { since: now, timeout, expired: false }
    }

    /// Whether the silence has lasted the whole timeout at `now`.
    pub open spec fn overdue(self, now: nat) -> bool {
        now >= self.since + self.timeout
    }

    /// What the guard makes of the source's answer at `now`.
    ///
    /// An item passes and starts the timeout anew. The end of the source and
    /// a failure pass unchanged. Where the source has nothing, the guard
    /// times out if the silence has lasted the whole timeout. Once timed out,
    /// the guard answers with the timeout whatever the source says.
    pub open spec fn observe<T, E>(self, answer: Polled<T, Error<E>>, now: nat) -> (
        GuardState,
        Polled<T, Error<E>>,
    ) {
        if self.expired {
            (self, Polled::Failed(Error::TimedOut))
        } else {
            match answer {
                Polled::Ready(Some(item)) => (
                    GuardState { since: now, ..self },
                    Polled::Ready(Some(item)),
                ),
                Polled::Ready(None) => (self, Polled::Ready(None)),
                Polled::Failed(e) => (self, Polled::Failed(e)),
                Polled::NotReady => if self.overdue(now) {
                    (GuardState { expired: true, ..self }, Polled::Failed(Error::TimedOut))
                } else {
                    (self, Polled::NotReady)
                },
            }
        }
    }
}

/// Ends a source with `Error::TimedOut` when it has given no item for
/// `timeout` nanoseconds since the last item, or since the guard was made.
///
/// The guard does not poll the source itself: the caller polls it, unless
/// the guard has timed out, and hands the answer to `observe`.
pub struct TimeoutGuard {
    since: u64,
    timeout: u64,
    expired: bool,
}

impl View for TimeoutGuard {
    type V = GuardState;

    closed spec fn view(&self) -> GuardState {
        GuardState { since: self.since as nat, timeout: self.timeout as nat, expired: self.expired }
    }
}

impl TimeoutGuard {
    /// A guard made at `now` that accepts `timeout` nanoseconds of silence.
    pub fn new(timeout: u64, now: u64) -> (guard: TimeoutGuard)
        ensures
            guard@ == GuardState::fresh(timeout as nat, now as nat),
    {
        TimeoutGuard { since: now, timeout, expired: false }
    }

    /// Starts the guard anew at `now`, with the timeout it was made with.
    pub fn restart(&mut self, now: u64)
        ensures
            final(self)@ == GuardState::fresh(old(self)@.timeout, now as nat),
    {
        self.since = now;
        self.expired = false;
    }

    /// Whether the guard has timed out.
    pub fn is_expired(&self) -> (expired: bool)
        ensures
            expired == self@.expired,
    {
        self.expired
    }

    /// When the guard times out if no item comes before, saturating at the
    /// clock's end.
    pub fn deadline(&self) -> (due: u64)
        ensures
            due == if self@.since + self@.timeout <= u64::MAX {
                self@.since + self@.timeout
            } else {
                u64::MAX as nat
            },
    {
        self.since.saturating_add(self.timeout)
    }

    /// Takes the source's answer to a poll made at `now` and gives the
    /// guarded answer.
    pub fn observe<T, E>(&mut self, answer: Polled<T, Error<E>>, now: u64) -> (guarded: Polled<
        T,
        Error<E>,
    >)
        ensures
            (final(self)@, guarded) == old(self)@.observe(answer, now as nat),
    {
        if self.expired {
            return Polled::Failed(Error::TimedOut);
        }
        match answer {
            Polled::Ready(Some(item)) => {
                self.since = now;
                Polled::Ready(Some(item))
            },
            Polled::Ready(None) => Polled::Ready(None),
            Polled::Failed(e) => Polled::Failed(e),
            Polled::NotReady => {
                if now >= self.since && now - self.since >= self.timeout {
                    self.expired = true;
                    Polled::Failed(Error::TimedOut)
                } else {
                    Polled::NotReady
                }
            },
        }
    }
}

/// One poll as the guard meets it: the time, and the source's answer.
pub struct Observation<T, E> {
    pub now: nat,
    pub answer: Polled<T, Error<E>>,
}

impl GuardState {
    /// The state after all observations of `run`, in order.
    pub open spec fn after<T, E>(self, run: Seq<Observation<T, E>>) -> GuardState
        decreases run.len(),
    {
        if run.len() == 0 {
            self
        } else {
            self.after(run.drop_last()).observe(run.last().answer, run.last().now).0
        }
    }

    /// The guarded answer to observation `k` of `run`.
    pub open spec fn answer_at<T, E>(self, run: Seq<Observation<T, E>>, k: int) -> Polled<
        T,
        Error<E>,
    > {
        self.after(run.take(k)).observe(run[k].answer, run[k].now).1
    }
}

/// Observation `k` leads from the state before it to the state before the
/// next.
pub proof fn lemma_after_next<T, E>(init: GuardState, run: Seq<Observation<T, E>>, k: int)
    requires
        0 <= k < run.len(),
    ensures
        init.after(run.take(k + 1)) == init.after(run.take(k)).observe(
            run[k].answer,
            run[k].now,
        ).0,
{
    assert(run.take(k + 1).drop_last() =~= run.take(k));
    assert(run.take(k + 1).last() == run[k]);
}

/// A guard hands out an item only where the source has just given it, and
/// only while the guard has not timed out.
pub proof fn lemma_items_come_from_source<T, E>(
    state: GuardState,
    answer: Polled<T, Error<E>>,
    now: nat,
    item: T,
)
    requires
        state.observe(answer, now).1 == Polled::<T, Error<E>>::Ready(Some(item)),
    ensures
        !state.expired,
        answer == Polled::<T, Error<E>>::Ready(Some(item)),
        state.observe(answer, now).0.since == now,
{
}

/// A guard that has timed out stays so, and from then on answers every poll
/// with the timeout: it hands out no further item.
pub proof fn lemma_timeout_is_final<T, E>(
    init: GuardState,
    run: Seq<Observation<T, E>>,
    from: int,
    k: int,
)
    requires
        0 <= from <= k < run.len(),
        init.after(run.take(from)).expired,
    ensures
        init.after(run.take(k)).expired,
        init.answer_at(run, k) == Polled::<T, Error<E>>::Failed(Error::TimedOut),
    decreases k - from,
{
    if from < k {
        lemma_timeout_is_final(init, run, from, k - 1);
        lemma_after_next(init, run, k - 1);
    }
}

/// A source that is polled and has nothing, time after time, until the
/// timeout has passed since the guard's last item, times the guard out: at
/// the latest, the poll that finds the timeout passed is answered with it.
pub proof fn lemma_silence_times_out<T, E>(init: GuardState, run: Seq<Observation<T, E>>)
    requires
        !init.expired,
        run.len() > 0,
        forall|k: int| 0 <= k < run.len() ==> (#[trigger] run[k]).answer is NotReady,
        init.overdue(run.last().now),
    ensures
        init.after(run).expired,
        init.answer_at(run, run.len() - 1) == Polled::<T, Error<E>>::Failed(Error::TimedOut),
{
    let n = run.len() as int;
    lemma_silence_keeps_since(init, run, n - 1);
    lemma_after_next(init, run, n - 1);
    assert(run.take(n) =~= run);
}

/// While the source has nothing, the time of the last item stays as it was.
proof fn lemma_silence_keeps_since<T, E>(init: GuardState, run: Seq<Observation<T, E>>, k: int)
    requires
        0 <= k <= run.len(),
        forall|i: int| 0 <= i < run.len() ==> (#[trigger] run[i]).answer is NotReady,
    ensures
        init.after(run.take(k)).since == init.since,
        init.after(run.take(k)).timeout == init.timeout,
    decreases k,
{
    if k == 0 {
        assert(run.take(0) =~= Seq::<Observation<T, E>>::empty());
    } else {
        lemma_silence_keeps_since(init, run, k - 1);
        lemma_after_next(init, run, k - 1);
    }
}

} // verus!
