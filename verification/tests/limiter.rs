use std::collections::VecDeque;

use aurora_client::poll::Polled;
use aurora_client::ratelimitedstream::{Phase, RateLimitedStream, Step, StreamExt};

const SECOND: u64 = 1_000_000_000;

type Answer = Polled<(u32, f32), String>;
type Script = VecDeque<Answer>;

/// What a real consumer does with the limiter: one poll attempt at `now`,
/// over a source that answers from a script and has nothing once the script
/// is through. Also says how often the source was polled.
fn attempt(limiter: &mut RateLimitedStream<Script>, now: u64) -> (Answer, u32) {
    let mut polls = 0;
    let mut demand = limiter.poll(now);
    loop {
        let phase = match demand {
            None => return (Polled::NotReady, polls),
            Some(phase) => phase,
        };
        polls += 1;
        let answer = limiter.get_mut().pop_front().unwrap_or(Polled::NotReady);
        match limiter.supply(phase, answer, now) {
            Step::Done(answer) => return (answer, polls),
            Step::Ask(again) => demand = Some(again),
        }
    }
}

fn item(energy: u32, voltage: f32) -> Answer {
    Polled::Ready(Some((energy, voltage)))
}

fn readings(n: u32) -> Script {
    (0..n).map(|k| item(100 + k, 230.0)).collect()
}

#[test]
fn new_limiter_has_its_passes_and_no_deadline() {
    let limiter = RateLimitedStream::new(readings(0), 5 * SECOND, 2);
    assert_eq!(limiter.remaining_warmup(), 2);
    assert_eq!(limiter.deadline(), None);
}

#[test]
fn rate_limited_is_new() {
    let limiter = readings(3).rate_limited(5 * SECOND, 2);
    assert_eq!(limiter.remaining_warmup(), 2);
    assert_eq!(limiter.deadline(), None);
    assert_eq!(limiter.get_ref().len(), 3);
    assert_eq!(limiter.into_inner(), readings(3));
}

#[test]
fn warmup_items_pass_with_no_spacing() {
    let mut limiter = readings(5).rate_limited(5 * SECOND, 3);
    assert_eq!(attempt(&mut limiter, 7), (item(100, 230.0), 1));
    assert_eq!(attempt(&mut limiter, 7), (item(101, 230.0), 1));
    assert_eq!(attempt(&mut limiter, 7), (item(102, 230.0), 1));
    assert_eq!(limiter.remaining_warmup(), 0);
    assert_eq!(limiter.deadline(), None);
}

#[test]
fn fewer_items_than_passes_all_pass_at_once() {
    let mut limiter = readings(2).rate_limited(5 * SECOND, 4);
    assert_eq!(attempt(&mut limiter, 0), (item(100, 230.0), 1));
    assert_eq!(attempt(&mut limiter, 0), (item(101, 230.0), 1));
    assert_eq!(limiter.remaining_warmup(), 2);
}

#[test]
fn after_warmup_the_source_is_not_polled_before_the_deadline() {
    let mut limiter = readings(3).rate_limited(5 * SECOND, 1);
    assert_eq!(attempt(&mut limiter, 0), (item(100, 230.0), 1));
    assert_eq!(attempt(&mut limiter, SECOND), (Polled::NotReady, 0));
    assert_eq!(limiter.deadline(), Some(6 * SECOND));
    assert_eq!(attempt(&mut limiter, 6 * SECOND - 1), (Polled::NotReady, 0));
    assert_eq!(limiter.get_ref().len(), 2);
    assert_eq!(attempt(&mut limiter, 6 * SECOND), (item(101, 230.0), 1));
    assert_eq!(limiter.deadline(), Some(11 * SECOND));
}

#[test]
fn items_after_warmup_are_spaced_by_the_delay() {
    let mut limiter = readings(6).rate_limited(5 * SECOND, 2);
    let mut emitted = Vec::new();
    let mut now = 0;
    while now <= 20 * SECOND {
        if let (Polled::Ready(Some(_)), _) = attempt(&mut limiter, now) {
            emitted.push(now);
        }
        now += SECOND / 2;
    }
    assert_eq!(emitted, vec![0, SECOND / 2, 6 * SECOND, 11 * SECOND, 16 * SECOND]);
}

#[test]
fn without_warmup_the_first_item_waits_too() {
    let mut limiter = readings(1).rate_limited(5 * SECOND, 0);
    assert_eq!(attempt(&mut limiter, 0), (Polled::NotReady, 0));
    assert_eq!(attempt(&mut limiter, 5 * SECOND), (item(100, 230.0), 1));
}

#[test]
fn three_readings_with_two_passes() {
    let mut script = Script::new();
    script.push_back(item(100, 230.0));
    script.push_back(item(101, 230.5));
    script.push_back(item(103, 229.8));
    let mut limiter = script.rate_limited(5 * SECOND, 2);
    assert_eq!(attempt(&mut limiter, 0), (item(100, 230.0), 1));
    assert_eq!(attempt(&mut limiter, SECOND), (item(101, 230.5), 1));
    assert_eq!(attempt(&mut limiter, SECOND), (Polled::NotReady, 0));
    for second in 2..6 {
        assert_eq!(attempt(&mut limiter, second * SECOND), (Polled::NotReady, 0));
    }
    assert_eq!(attempt(&mut limiter, 6 * SECOND), (item(103, 229.8), 1));
}

#[test]
fn warmup_poll_that_finds_nothing_arms_the_deadline() {
    let mut script = Script::new();
    script.push_back(Polled::NotReady);
    script.push_back(item(100, 230.0));
    let mut limiter = script.rate_limited(5 * SECOND, 2);
    assert_eq!(attempt(&mut limiter, 3), (Polled::NotReady, 1));
    assert_eq!(limiter.remaining_warmup(), 2);
    assert_eq!(limiter.deadline(), Some(5 * SECOND + 3));
    assert_eq!(attempt(&mut limiter, 4), (item(100, 230.0), 1));
    assert_eq!(limiter.remaining_warmup(), 1);
    assert_eq!(limiter.deadline(), Some(5 * SECOND + 3));
}

#[test]
fn warmup_poll_that_finds_nothing_is_followed_by_a_timed_poll() {
    let mut script = Script::new();
    script.push_back(Polled::NotReady);
    script.push_back(Polled::NotReady);
    script.push_back(item(100, 230.0));
    let mut limiter = script.rate_limited(5 * SECOND, 1);
    assert_eq!(attempt(&mut limiter, 0), (Polled::NotReady, 1));
    assert_eq!(attempt(&mut limiter, 5 * SECOND), (item(100, 230.0), 2));
    assert_eq!(limiter.remaining_warmup(), 1);
    assert_eq!(limiter.deadline(), Some(10 * SECOND));
}

#[test]
fn a_pass_used_under_a_pending_deadline_is_not_followed_by_a_full_delay() {
    let mut script = Script::new();
    script.push_back(Polled::NotReady);
    script.push_back(item(100, 230.0));
    script.push_back(item(101, 230.0));
    let mut limiter = script.rate_limited(5 * SECOND, 1);
    assert_eq!(attempt(&mut limiter, 0), (Polled::NotReady, 1));
    assert_eq!(attempt(&mut limiter, 4 * SECOND), (item(100, 230.0), 1));
    assert_eq!(attempt(&mut limiter, 5 * SECOND), (item(101, 230.0), 1));
}

#[test]
fn timed_poll_that_finds_nothing_leaves_the_deadline_elapsed() {
    let mut script = Script::new();
    script.push_back(Polled::NotReady);
    script.push_back(item(100, 230.0));
    let mut limiter = script.rate_limited(5 * SECOND, 0);
    assert_eq!(attempt(&mut limiter, 0), (Polled::NotReady, 0));
    assert_eq!(attempt(&mut limiter, 5 * SECOND), (Polled::NotReady, 1));
    assert_eq!(limiter.deadline(), Some(5 * SECOND));
    assert_eq!(attempt(&mut limiter, 5 * SECOND + 1), (item(100, 230.0), 1));
    assert_eq!(limiter.deadline(), Some(10 * SECOND + 1));
}

#[test]
fn failure_during_warmup_passes_unchanged() {
    let mut script = Script::new();
    script.push_back(Polled::Failed(String::from("broken pipe")));
    let mut limiter = script.rate_limited(5 * SECOND, 2);
    assert_eq!(attempt(&mut limiter, 0), (Polled::Failed(String::from("broken pipe")), 1));
    assert_eq!(limiter.remaining_warmup(), 2);
    assert_eq!(limiter.deadline(), None);
}

#[test]
fn failure_after_warmup_passes_unchanged() {
    let mut script = Script::new();
    script.push_back(Polled::Failed(String::from("broken pipe")));
    let mut limiter = script.rate_limited(5 * SECOND, 0);
    assert_eq!(attempt(&mut limiter, 0), (Polled::NotReady, 0));
    assert_eq!(attempt(&mut limiter, 5 * SECOND), (Polled::Failed(String::from("broken pipe")), 1));
    assert_eq!(limiter.deadline(), Some(5 * SECOND));
}

#[test]
fn end_of_the_source_passes_like_an_item() {
    let mut script = Script::new();
    script.push_back(Polled::Ready(None));
    script.push_back(Polled::Ready(None));
    let mut limiter = script.rate_limited(5 * SECOND, 1);
    assert_eq!(attempt(&mut limiter, 0), (Polled::Ready(None), 1));
    assert_eq!(limiter.remaining_warmup(), 0);
    assert_eq!(attempt(&mut limiter, 0), (Polled::NotReady, 0));
    assert_eq!(attempt(&mut limiter, 5 * SECOND), (Polled::Ready(None), 1));
}

#[test]
fn clock_that_runs_backwards_elapses_nothing() {
    let mut limiter = readings(1).rate_limited(5 * SECOND, 0);
    assert_eq!(attempt(&mut limiter, 10 * SECOND), (Polled::NotReady, 0));
    assert_eq!(attempt(&mut limiter, 0), (Polled::NotReady, 0));
    assert_eq!(attempt(&mut limiter, 15 * SECOND), (item(100, 230.0), 1));
}

#[test]
fn deadline_saturates_at_the_end_of_the_clock() {
    let mut limiter = readings(1).rate_limited(u64::MAX, 0);
    assert_eq!(attempt(&mut limiter, 1), (Polled::NotReady, 0));
    assert_eq!(limiter.deadline(), Some(u64::MAX));
    assert_eq!(attempt(&mut limiter, u64::MAX), (Polled::NotReady, 0));
}

#[test]
fn delay_of_zero_only_skips_one_attempt() {
    let mut limiter = readings(2).rate_limited(0, 0);
    assert_eq!(attempt(&mut limiter, 0), (Polled::NotReady, 0));
    assert_eq!(attempt(&mut limiter, 0), (item(100, 230.0), 1));
    assert_eq!(attempt(&mut limiter, 0), (item(101, 230.0), 1));
}

#[test]
fn supply_without_a_pass_left_leaves_the_count_at_zero() {
    let mut limiter = readings(0).rate_limited(5 * SECOND, 0);
    let step = limiter.supply(Phase::Warmup, item(100, 230.0), 0);
    assert_eq!(step, Step::Done(item(100, 230.0)));
    assert_eq!(limiter.remaining_warmup(), 0);
}
