//! Timers, counted in nanoseconds and advanced by the engine's timer.

use bevy::time::{Timer, TimerMode};
use std::time::Duration;
use vstd::prelude::*;

verus! {

/// Whether a timer stops at its duration or starts over.
#[derive(Clone, Copy, Debug, PartialEq, Eq, Structural)]
pub enum Repeat {
    /// Run once and stay finished.
    Once,
    /// Start over each time the duration is reached.
    Repeating,
}

/// Whether a timer with `elapsed` nanoseconds on it reaches `duration`
/// when `delta` more nanoseconds pass.
pub open spec fn tick_finishes(duration: u64, elapsed: u64, delta: u64) -> bool {
    elapsed + delta >= duration
}

/// Nanoseconds on a timer after `delta` more have passed: the sum while the
/// duration is not reached; afterwards a one-shot timer rests at its
/// duration and a repeating one keeps the remainder.
pub open spec fn ticked_elapsed(duration: u64, repeat: Repeat, elapsed: u64, delta: u64) -> int {
    if !tick_finishes(duration, elapsed, delta) {
        elapsed + delta
    } else if repeat == Repeat::Once {
        duration as int
    } else if duration == 0 {
        0
    } else {
        (elapsed + delta) % (duration as int)
    }
}

/// Advances a `bevy::time::Timer` and reports where it stands.
///
/// The timer is built with `Timer::new` from `duration` and `repeat`, put at
/// `elapsed` with `Timer::set_elapsed`, and advanced by `delta` with
/// `Timer::tick`; all three are nanosecond counts. The result is what
/// `Timer::finished` and `Timer::elapsed` then return. The contract restates
/// `Timer::tick`: the timer finishes when the new elapsed time reaches the
/// duration; it then clamps to the duration (one-shot) or wraps around it
/// (repeating, to zero when the duration is zero).
#[verifier::external_body]
fn tick_timer(duration: u64, repeat: Repeat, elapsed: u64, delta: u64) -> (r: (bool, u64))
    ensures
        r.0 == tick_finishes(duration, elapsed, delta),
        r.1 == ticked_elapsed(duration, repeat, elapsed, delta),
{
    let mode = match repeat {
        Repeat::Once => TimerMode::Once,
        Repeat::Repeating => TimerMode::Repeating,
    };
    let mut timer = Timer::new(Duration::from_nanos(duration), mode);
    timer.set_elapsed(Duration::from_nanos(elapsed));
    timer.tick(Duration::from_nanos(delta));
    (timer.finished(), timer.elapsed().as_nanos() as u64)
}

/// The clock of a timed message or of the round countdown.
///
/// It holds its state as plain counts of nanoseconds; each tick is worked
/// out by a `bevy::time::Timer` set to that state.
#[derive(Clone, Copy, Debug, PartialEq, Eq)]
pub struct GameTimer {
    duration: u64,
    repeat: Repeat,
    elapsed: u64,
    finished: bool,
}

impl GameTimer {
    /// The timer's length in nanoseconds.
    pub closed spec fn duration(self) -> u64 {
        self.duration
    }

    /// Whether the timer starts over when it finishes.
    pub closed spec fn repeat(self) -> Repeat {
        self.repeat
    }

    /// Nanoseconds counted so far.
    pub closed spec fn elapsed(self) -> u64 {
        self.elapsed
    }

    /// Whether the last tick reached the duration.
    pub closed spec fn finished(self) -> bool {
        self.finished
    }

    /// Whether the last tick reached the duration.
    pub fn is_finished(&self) -> (b: bool)
        ensures
            b == self.finished(),
    {
        self.finished
    }

    /// Nanoseconds counted so far.
    pub fn elapsed_nanos(&self) -> (n: u64)
        ensures
            n == self.elapsed(),
    {
        self.elapsed
    }

    /// The timer's length in nanoseconds.
    pub fn duration_nanos(&self) -> (n: u64)
        ensures
            n == self.duration(),
    {
        self.duration
    }

    /// A fresh timer of `duration` nanoseconds.
    pub fn new(duration: u64, repeat: Repeat) -> (t: GameTimer)
        ensures
            t.duration() == duration,
            t.repeat() == repeat,
            t.elapsed() == 0,
            !t.finished(),
    {
        GameTimer { duration, repeat, elapsed: 0, finished: false }
    }

    /// Whether `delta` more nanoseconds finish the timer.
    pub fn will_finish(&self, delta: u64) -> (b: bool)
        ensures
            b == tick_finishes(self.duration(), self.elapsed(), delta),
    {
        delta >= self.duration || self.elapsed >= self.duration - delta
    }

    /// Lets `delta` nanoseconds pass and tells whether the timer finished.
    pub fn tick(&mut self, delta: u64) -> (done: bool)
        ensures
            done == tick_finishes(old(self).duration(), old(self).elapsed(), delta),
            final(self).finished() == done,
            final(self).elapsed() == ticked_elapsed(
                old(self).duration(),
                old(self).repeat(),
                old(self).elapsed(),
                delta,
            ),
            final(self).duration() == old(self).duration(),
            final(self).repeat() == old(self).repeat(),
    {
        let (done, elapsed) = tick_timer(self.duration, self.repeat, self.elapsed, delta);
        self.elapsed = elapsed;
        self.finished = done;
        done
    }
}

/// A one-shot timer that has reached its duration rests there, finished,
/// however much more time passes.
pub proof fn lemma_one_shot_timer_rests(duration: u64, delta: u64)
    ensures
        tick_finishes(duration, duration, delta),
        ticked_elapsed(duration, Repeat::Once, duration, delta) == duration,
{
}

/// No tick takes a timer beyond its duration, and a repeating timer of a
/// positive duration always ends a tick short of it.
pub proof fn lemma_timer_stays_within_duration(
    duration: u64,
    repeat: Repeat,
    elapsed: u64,
    delta: u64,
)
    ensures
        0 <= ticked_elapsed(duration, repeat, elapsed, delta) <= duration,
        repeat == Repeat::Repeating && duration > 0 ==> ticked_elapsed(
            duration,
            repeat,
            elapsed,
            delta,
        ) < duration,
{
}

} // verus!
