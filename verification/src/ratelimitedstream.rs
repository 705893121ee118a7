//! The rate limiter: it decides when the source behind it is polled.

use vstd::prelude::*;
use crate::poll::Polled;

verus! {

/// Which poll of the source an answer belongs to.
#[derive(Clone, Copy, Debug, PartialEq, Eq, Structural)]
pub enum Phase {
    /// The immediate poll made while warm-up passes remain.
    Warmup,
    /// The poll made once the pending deadline has elapsed.
    Steady,
}

/// What the limiter says once it has an answer of the source.
#[derive(Debug, PartialEq, Eq)]
pub enum Step<T, E> {
    /// Poll the source once more and supply its answer under this phase.
    Ask(Phase),
    /// The poll attempt is over with this answer.
    Done(Polled<T, E>),
}

/// The limiter's state as contracts see it. Times are nanoseconds on the
/// caller's monotonic clock.
pub struct LimiterState {
    /// Items that still pass without waiting.
    pub remaining_warmup: nat,
    /// When the pending deadline was armed, if one is.
    pub armed_at: Option<nat>,
    /// The least time between a deadline's arming and the poll it allows.
    pub delay: nat,
}

impl LimiterState {
    /// The state of a limiter that has not been polled yet.
    pub open spec fn fresh(delay: nat, skips: nat) -> LimiterState {
        LimiterState { remaining_warmup: skips, armed_at: None, delay }
    }

    /// Whether a deadline is pending and has elapsed at `now`.
    pub open spec fn elapsed(self, now: nat) -> bool {
        self.armed_at matches Some(armed) && now >= armed + self.delay
    }

    /// The state with a deadline armed at `now`.
    pub open spec fn arm(self, now: nat) -> LimiterState {
        LimiterState { armed_at: Some(now), ..self }
    }

    /// The state with one warm-up pass used, if any remained.
    pub open spec fn pass(self) -> LimiterState {
        if self.remaining_warmup > 0 {
            LimiterState { remaining_warmup: (self.remaining_warmup - 1) as nat, ..self }
        } else {
            self
        }
    }

    /// The timed part of a poll attempt: with an elapsed deadline the source
    /// is to be polled; otherwise a deadline is armed unless one is pending,
    /// and the attempt ends without an item.
    pub open spec fn timed(self, now: nat) -> (LimiterState, Option<Phase>) {
        if self.elapsed(now) {
            (self, Some(Phase::Steady))
        } else if self.armed_at is None {
            (self.arm(now), None)
        } else {
            (self, None)
        }
    }

    /// The start of a poll attempt: while warm-up passes remain the source is
    /// polled at once, whatever the deadline.
    pub open spec fn begin(self, now: nat) -> (LimiterState, Option<Phase>) {
        if self.remaining_warmup > 0 {
            (self, Some(Phase::Warmup))
        } else {
            self.timed(now)
        }
    }

    /// What follows the answer to a poll of the source.
    pub open spec fn resume<T, E>(self, phase: Phase, answer: Polled<T, E>, now: nat) -> (
        LimiterState,
        Step<T, E>,
    ) {
        match answer {
            Polled::Failed(e) => (self, Step::Done(Polled::Failed(e))),
            Polled::Ready(item) => match phase {
                Phase::Warmup => (self.pass(), Step::Done(Polled::Ready(item))),
                Phase::Steady => (self.arm(now), Step::Done(Polled::Ready(item))),
            },
            Polled::NotReady => match phase {
                Phase::Warmup => {
                    let (next, demand) = self.timed(now);
                    match demand {
                        Some(phase) => (next, Step::Ask(phase)),
                        None => (next, Step::Done(Polled::NotReady)),
                    }
                },
                Phase::Steady => (self, Step::Done(Polled::NotReady)),
            },
        }
    }
}

/// Only lets the source behind it be polled at certain times: at once while
/// warm-up passes remain, and after that no sooner than `delay` after the
/// last item it handed out.
///
/// The limiter does not poll the source itself. `poll` says whether the
/// source is to be polled now, and `supply` takes the source's answer.
pub struct RateLimitedStream<S> {
    inner: S,
    sleep: Option<u64>,
    delay: u64,
    delay_skips: u64,
}

impl<S> View for RateLimitedStream<S> {
    type V = LimiterState;

    closed spec fn view(&self) -> LimiterState {
        LimiterState {
            remaining_warmup: self.delay_skips as nat,
            armed_at: match self.sleep {
                Some(armed) => Some(armed as nat),
                None => None,
            },
            delay: self.delay as nat,
        }
    }
}

impl<S> RateLimitedStream<S> {
    /// The source behind the limiter.
    pub closed spec fn inner(self) -> S {
        self.inner
    }

    /// A limiter in front of `inner` that lets the first `skips` items pass
    /// at once and then keeps `delay` nanoseconds between items.
    pub fn new(inner: S, delay: u64, skips: u64) -> (limited: Self)
        ensures
            limited@ == LimiterState::fresh(delay as nat, skips as nat),
            limited.inner() == inner,
    {
        RateLimitedStream { inner, delay, sleep: None, delay_skips: skips }
    }

    /// The source behind the limiter.
    pub fn get_ref(&self) -> (inner: &S)
        ensures
            *inner == self.inner(),
    {
        &self.inner
    }

    /// The source behind the limiter, to poll it.
    pub fn get_mut(&mut self) -> (inner: &mut S)
        ensures
            *inner == old(self).inner(),
            final(self)@ == old(self)@,
            final(self).inner() == *final(inner),
    {
        &mut self.inner
    }

    /// Gives the source back.
    pub fn into_inner(self) -> (inner: S)
        ensures
            inner == self.inner(),
    {
        self.inner
    }

    /// Warm-up passes that remain.
    pub fn remaining_warmup(&self) -> (passes: u64)
        ensures
            passes == self@.remaining_warmup,
    {
        self.delay_skips
    }

    /// When the pending deadline elapses, saturating at the clock's end; or
    /// `None` where no deadline is armed.
    pub fn deadline(&self) -> (due: Option<u64>)
        ensures
            due is Some <==> self@.armed_at is Some,
            due matches Some(d) ==> d == if self@.armed_at.unwrap() + self@.delay <= u64::MAX {
                self@.armed_at.unwrap() + self@.delay
            } else {
                u64::MAX as nat
            },
    {
        match self.sleep {
            Some(armed) => Some(armed.saturating_add(self.delay)),
            None => None,
        }
    }

    fn timed(&mut self, now: u64) -> (demand: Option<Phase>)
        ensures
            (final(self)@, demand) == old(self)@.timed(now as nat),
            final(self).inner() == old(self).inner(),
    {
        match self.sleep {
            Some(armed) => {
                if now >= armed && now - armed >= self.delay {
                    Some(Phase::Steady)
                } else {
                    None
                }
            },
            None => {
                self.sleep = Some(now);
                None
            },
        }
    }

    /// Starts a poll attempt at `now`. `Some(phase)` asks the caller to poll
    /// the source and to `supply` its answer under that phase; `None` means
    /// that the attempt is over and no item is ready.
    pub fn poll(&mut self, now: u64) -> (demand: Option<Phase>)
        ensures
            (final(self)@, demand) == old(self)@.begin(now as nat),
            final(self).inner() == old(self).inner(),
    {
        if self.delay_skips > 0 {
            Some(Phase::Warmup)
        } else {
            self.timed(now)
        }
    }

    /// Takes the source's answer to the poll that `phase` asked for.
    pub fn supply<T, E>(&mut self, phase: Phase, answer: Polled<T, E>, now: u64) -> (step: Step<
        T,
        E,
    >)
        ensures
            (final(self)@, step) == old(self)@.resume(phase, answer, now as nat),
            final(self).inner() == old(self).inner(),
    {
        match answer {
            Polled::Failed(e) => Step::Done(Polled::Failed(e)),
            Polled::Ready(item) => {
                match phase {
                    Phase::Warmup => {
                        if self.delay_skips > 0 {
                            self.delay_skips = self.delay_skips - 1;
                        }
                    },
                    Phase::Steady => {
                        self.sleep = Some(now);
                    },
                }
                Step::Done(Polled::Ready(item))
            },
            Polled::NotReady => match phase {
                Phase::Warmup => match self.timed(now) {
                    Some(phase) => Step::Ask(phase),
                    None => Step::Done(Polled::NotReady),
                },
                Phase::Steady => Step::Done(Polled::NotReady),
            },
        }
    }
}

/// Puts a rate limiter in front of any source.
pub trait StreamExt: Sized {
    fn rate_limited(self, delay: u64, skips: u64) -> (limited: RateLimitedStream<Self>)
        ensures
            limited@ == LimiterState::fresh(delay as nat, skips as nat),
            limited.inner() == self,
    ;
}

impl<S> StreamExt for S {
    fn rate_limited(self, delay: u64, skips: u64) -> (limited: RateLimitedStream<Self>) {
        RateLimitedStream::new(self, delay, skips)
    }
}

/// One poll attempt as the limiter meets it: the time on the caller's clock,
/// and what the source answers to the first and, should the limiter ask
/// again, to the second poll of the attempt.
pub struct Attempt<T, E> {
    pub now: nat,
    pub first: Polled<T, E>,
    pub second: Polled<T, E>,
}

impl LimiterState {
    /// A whole poll attempt: the state it leaves and the answer it gives.
    pub open spec fn attempt<T, E>(self, a: Attempt<T, E>) -> (LimiterState, Polled<T, E>) {
        let (begun, demand) = self.begin(a.now);
        match demand {
            None => (begun, Polled::NotReady),
            Some(phase) => {
                let (next, step) = begun.resume(phase, a.first, a.now);
                match step {
                    Step::Done(answer) => (next, answer),
                    Step::Ask(again) => {
                        let (last, step) = next.resume(again, a.second, a.now);
                        match step {
                            Step::Done(answer) => (last, answer),
                            Step::Ask(_) => (last, Polled::NotReady),
                        }
                    },
                }
            },
        }
    }

    /// The state after all attempts of `run`, in order.
    pub open spec fn after<T, E>(self, run: Seq<Attempt<T, E>>) -> LimiterState
        decreases run.len(),
    {
        if run.len() == 0 {
            self
        } else {
            self.after(run.drop_last()).attempt(run.last()).0
        }
    }

    /// The state in which attempt `k` of `run` begins.
    pub open spec fn before<T, E>(self, run: Seq<Attempt<T, E>>, k: int) -> LimiterState {
        self.after(run.take(k))
    }

    /// The answer that attempt `k` of `run` gives.
    pub open spec fn answer_at<T, E>(self, run: Seq<Attempt<T, E>>, k: int) -> Polled<T, E> {
        self.before(run, k).attempt(run[k]).1
    }

    /// Whether attempt `k` of `run` hands out an item or the end of the
    /// source.
    pub open spec fn emits_at<T, E>(self, run: Seq<Attempt<T, E>>, k: int) -> bool {
        self.answer_at(run, k) is Ready
    }

    /// Whether attempt `k` of `run` uses a warm-up pass.
    pub open spec fn passes_at<T, E>(self, run: Seq<Attempt<T, E>>, k: int) -> bool {
        self.before(run, k).remaining_warmup > 0 && run[k].first is Ready
    }
}

/// Whether the clock never runs backwards over `run`.
pub open spec fn clock_is_monotonic<T, E>(run: Seq<Attempt<T, E>>) -> bool {
    forall|a: int, b: int| 0 <= a <= b < run.len() ==> run[a].now <= run[b].now
}

/// Whether every warm-up pass of `run` is used while no deadline is pending.
pub open spec fn passes_before_arming<T, E>(init: LimiterState, run: Seq<Attempt<T, E>>) -> bool {
    forall|k: int|
        0 <= k < run.len() && #[trigger] init.passes_at(run, k) ==> init.before(
            run,
            k,
        ).armed_at is None
}

/// Attempt `k` leads from the state before it to the state before the next.
pub proof fn lemma_before_next<T, E>(init: LimiterState, run: Seq<Attempt<T, E>>, k: int)
    requires
        0 <= k < run.len(),
    ensures
        init.before(run, k + 1) == init.before(run, k).attempt(run[k]).0,
{
    assert(run.take(k + 1).drop_last() =~= run.take(k));
    assert(run.take(k + 1).last() == run[k]);
}

/// While warm-up passes remain, whatever the source has ready is handed out
/// by the very attempt that finds it: neither the time nor a pending deadline
/// holds it back.
pub proof fn lemma_warmup_is_not_spaced<T, E>(state: LimiterState, a: Attempt<T, E>)
    requires
        state.remaining_warmup > 0,
        a.first is Ready,
    ensures
        state.attempt(a) == (state.pass(), a.first),
{
}

/// Over a source that has an item at every poll, a fresh limiter with `skips`
/// warm-up passes hands out the item of each of its first `skips` attempts at
/// once, and arms no deadline while it does.
pub proof fn lemma_first_items_pass<T, E>(
    delay: nat,
    skips: nat,
    run: Seq<Attempt<T, E>>,
    k: int,
)
    requires
        forall|i: int| 0 <= i < run.len() ==> (#[trigger] run[i]).first is Ready,
        0 <= k <= run.len(),
        k <= skips,
    ensures
        LimiterState::fresh(delay, skips).before(run, k) == (LimiterState {
            remaining_warmup: (skips - k) as nat,
            armed_at: None,
            delay,
        }),
        k < run.len() && k < skips ==> LimiterState::fresh(delay, skips).answer_at(run, k)
            == run[k].first,
    decreases k,
{
    let init = LimiterState::fresh(delay, skips);
    if k > 0 {
        lemma_first_items_pass(delay, skips, run, k - 1);
        lemma_before_next(init, run, k - 1);
    } else {
        assert(run.take(0) =~= Seq::<Attempt<T, E>>::empty());
    }
}

/// Once a deadline is pending, nothing was handed out after it was armed,
/// as long as the clock is monotonic and warm-up passes are used before any
/// deadline is armed.
proof fn lemma_armed_after_emissions<T, E>(init: LimiterState, run: Seq<Attempt<T, E>>, k: int)
    requires
        init.armed_at is None,
        clock_is_monotonic(run),
        passes_before_arming(init, run),
        0 <= k <= run.len(),
    ensures
        init.before(run, k).delay == init.delay,
        init.before(run, k).armed_at matches Some(armed) ==> forall|i: int|
            0 <= i < k && #[trigger] init.emits_at(run, i) ==> run[i].now <= armed,
        init.before(run, k).armed_at matches Some(armed) ==> k > 0 && armed <= run[k - 1].now,
    decreases k,
{
    if k == 0 {
        assert(run.take(0) =~= Seq::<Attempt<T, E>>::empty());
    } else {
        lemma_armed_after_emissions(init, run, k - 1);
        lemma_before_next(init, run, k - 1);
        assert(init.passes_at(run, k - 1) ==> init.before(run, k - 1).armed_at is None);
        if let Some(armed) = init.before(run, k).armed_at {
            assert forall|i: int| 0 <= i < k && #[trigger] init.emits_at(run, i) implies run[i].now
                <= armed by {
                if i < k - 1 {
                    assert(run[i].now <= run[k - 1].now);
                }
            }
        }
    }
}

/// After the warm-up, items are spaced: an attempt that hands something out
/// without using a warm-up pass comes at least `delay` after every earlier
/// attempt that handed something out. This holds of every run of a limiter
/// that starts with no deadline armed, on a monotonic clock, in which the
/// warm-up passes are used before the first deadline is armed.
pub proof fn lemma_items_are_spaced<T, E>(
    init: LimiterState,
    run: Seq<Attempt<T, E>>,
    i: int,
    j: int,
)
    requires
        init.armed_at is None,
        clock_is_monotonic(run),
        passes_before_arming(init, run),
        0 <= i < j < run.len(),
        init.emits_at(run, i),
        init.emits_at(run, j),
        !init.passes_at(run, j),
    ensures
        run[j].now >= run[i].now + init.delay,
{
    lemma_armed_after_emissions(init, run, j);
}

/// A limiter over a source that has an item at every poll of the warm-up uses
/// its passes before it arms any deadline.
pub proof fn lemma_ready_source_passes_before_arming<T, E>(
    delay: nat,
    skips: nat,
    run: Seq<Attempt<T, E>>,
)
    requires
        forall|i: int| 0 <= i < run.len() ==> (#[trigger] run[i]).first is Ready,
    ensures
        passes_before_arming(LimiterState::fresh(delay, skips), run),
{
    let init = LimiterState::fresh(delay, skips);
    assert forall|k: int| 0 <= k < run.len() && #[trigger] init.passes_at(run, k) implies init.before(
        run,
        k,
    ).armed_at is None by {
        lemma_remaining_never_grows(init, run, k);
        if k <= skips {
            lemma_first_items_pass(delay, skips, run, k);
        } else {
            lemma_first_items_pass(delay, skips, run, skips as int);
            lemma_remaining_never_grows_from(init, run, skips as int, k);
        }
    }
}

/// The warm-up passes that remain never grow in number.
pub proof fn lemma_remaining_never_grows<T, E>(init: LimiterState, run: Seq<Attempt<T, E>>, k: int)
    requires
        0 <= k <= run.len(),
    ensures
        init.before(run, k).remaining_warmup <= init.remaining_warmup,
    decreases k,
{
    if k == 0 {
        assert(run.take(0) =~= Seq::<Attempt<T, E>>::empty());
    } else {
        lemma_remaining_never_grows(init, run, k - 1);
        lemma_before_next(init, run, k - 1);
    }
}

/// From one attempt to a later one the remaining warm-up passes do not grow.
pub proof fn lemma_remaining_never_grows_from<T, E>(
    init: LimiterState,
    run: Seq<Attempt<T, E>>,
    from: int,
    to: int,
)
    requires
        0 <= from <= to <= run.len(),
    ensures
        init.before(run, to).remaining_warmup <= init.before(run, from).remaining_warmup,
    decreases to - from,
{
    if from < to {
        lemma_remaining_never_grows_from(init, run, from, to - 1);
        lemma_before_next(init, run, to - 1);
    }
}

/// A queue of readings, which has an item at every poll, comes out of a fresh
/// limiter with `skips` warm-up passes like this: once the passes are used,
/// whatever is handed out comes at least `delay` after everything handed out
/// before it, on a monotonic clock.
pub proof fn lemma_queued_items_are_spaced<T, E>(
    delay: nat,
    skips: nat,
    run: Seq<Attempt<T, E>>,
    i: int,
    j: int,
)
    requires
        forall|k: int| 0 <= k < run.len() ==> (#[trigger] run[k]).first is Ready,
        clock_is_monotonic(run),
        0 <= i < j < run.len(),
        skips <= j,
        LimiterState::fresh(delay, skips).emits_at(run, i),
        LimiterState::fresh(delay, skips).emits_at(run, j),
    ensures
        run[j].now >= run[i].now + delay,
{
    let init = LimiterState::fresh(delay, skips);
    lemma_ready_source_passes_before_arming(delay, skips, run);
    lemma_first_items_pass(delay, skips, run, skips as int);
    lemma_remaining_never_grows_from(init, run, skips as int, j);
    lemma_items_are_spaced(init, run, i, j);
}

/// Nothing is fetched ahead: with the warm-up passes used and the deadline
/// not elapsed, an attempt does not poll the source, and gives nothing,
/// whatever the source would have answered.
pub proof fn lemma_source_rests_until_deadline<T, E>(state: LimiterState, a: Attempt<T, E>)
    requires
        state.remaining_warmup == 0,
        !state.elapsed(a.now),
    ensures
        state.begin(a.now).1 is None,
        state.attempt(a).1 == Polled::<T, E>::NotReady,
        state.attempt(a).0 == if state.armed_at is None {
            state.arm(a.now)
        } else {
            state
        },
{
}

/// A failure of the source comes out unchanged, and leaves the limiter as it
/// was.
pub proof fn lemma_failures_pass_unchanged<T, E>(state: LimiterState, phase: Phase, e: E, now: nat)
    ensures
        state.resume(phase, Polled::<T, E>::Failed(e), now) == (
            state,
            Step::Done(Polled::<T, E>::Failed(e)),
        ),
{
}

} // verus!
