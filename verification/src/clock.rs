//! Time as the engine keeps it: spans, stopwatches and countdown timers.
//!
//! The three types are the engine's own and opaque to the verifier. What the
//! game rules need to know of them is said here, over a handful of named
//! observations, and believed without proof.

use bevy::time::{Stopwatch, Timer, TimerMode};
use std::time::Duration;
use vstd::prelude::*;

verus! {

/// The engine's `Stopwatch`, of which nothing is seen but through the
/// observations below.
#[verifier::external_type_specification]
#[verifier::external_body]
pub struct ExStopwatch(bevy::time::Stopwatch);

/// The engine's `Timer`, of which nothing is seen but through the
/// observations below.
#[verifier::external_type_specification]
#[verifier::external_body]
pub struct ExTimer(bevy::time::Timer);

/// The engine's `TimerMode`, with its two variants `Once` and `Repeating`.
#[verifier::external_type_specification]
pub struct ExTimerMode(bevy::time::TimerMode);

/// The longest span a `Duration` can hold, in nanoseconds: `u64::MAX` whole
/// seconds and one nanosecond short of another.
pub const MAX_SPAN_NANOS: u128 = 18_446_744_073_709_551_615_999_999_999;

/// The longest span a `Duration` can hold, in nanoseconds.
pub open spec fn max_span_nanos() -> nat {
    MAX_SPAN_NANOS as nat
}

/// What `Duration::as_nanos` returns for a span.
pub uninterp spec fn duration_nanos(span: Duration) -> nat;

/// What `Stopwatch::elapsed` returns, in nanoseconds.
pub uninterp spec fn stopwatch_elapsed_nanos(watch: Stopwatch) -> nat;

/// What `Stopwatch::paused` returns.
pub uninterp spec fn stopwatch_paused(watch: Stopwatch) -> bool;

/// What `Timer::elapsed` returns, in nanoseconds.
pub uninterp spec fn timer_elapsed_nanos(timer: Timer) -> nat;

/// What `Timer::duration` returns, in nanoseconds.
pub uninterp spec fn timer_duration_nanos(timer: Timer) -> nat;

/// Whether `Timer::mode` returns `TimerMode::Repeating`.
pub uninterp spec fn timer_repeats(timer: Timer) -> bool;

/// What `Timer::finished` returns.
pub uninterp spec fn timer_is_finished(timer: Timer) -> bool;

/// What `Timer::times_finished_this_tick` returns.
pub uninterp spec fn timer_times_finished(timer: Timer) -> nat;

/// What `Timer::paused` returns.
pub uninterp spec fn timer_paused(timer: Timer) -> bool;

/// Everything observable of a stopwatch.
pub struct StopwatchState {
    pub elapsed: nat,
    pub paused: bool,
}

/// Everything observable of a timer.
pub struct TimerState {
    pub elapsed: nat,
    pub duration: nat,
    pub repeating: bool,
    pub finished: bool,
    pub times_finished: nat,
    pub paused: bool,
}

/// The observations of a stopwatch, taken together.
pub open spec fn stopwatch_state(watch: Stopwatch) -> StopwatchState {
    StopwatchState { elapsed: stopwatch_elapsed_nanos(watch), paused: stopwatch_paused(watch) }
}

/// The observations of a timer, taken together.
pub open spec fn timer_state(timer: Timer) -> TimerState {
    TimerState {
        elapsed: timer_elapsed_nanos(timer),
        duration: timer_duration_nanos(timer),
        repeating: timer_repeats(timer),
        finished: timer_is_finished(timer),
        times_finished: timer_times_finished(timer),
        paused: timer_paused(timer),
    }
}

impl StopwatchState {
    /// The stopwatch after `delta` nanoseconds went by: a paused one stands still.
    pub open spec fn ticked(self, delta: nat) -> StopwatchState {
        if self.paused {
            self
        } else {
            StopwatchState { elapsed: self.elapsed + delta, ..self }
        }
    }

    /// Advancing by `delta` stays within what a span can hold.
    pub open spec fn can_tick(self, delta: nat) -> bool {
        self.paused || self.elapsed + delta <= max_span_nanos()
    }

    /// The stopwatch back at zero, paused or not as before.
    pub open spec fn reset(self) -> StopwatchState {
        StopwatchState { elapsed: 0, ..self }
    }
}

impl TimerState {
    /// A timer that has just been made for `duration` nanoseconds.
    pub open spec fn fresh(duration: nat, repeating: bool) -> TimerState {
        TimerState {
            elapsed: 0,
            duration,
            repeating,
            finished: false,
            times_finished: 0,
            paused: false,
        }
    }

    /// The timer reached its end during the latest tick.
    pub open spec fn just_finished(self) -> bool {
        self.times_finished > 0
    }

    /// A tick leaves the elapsed time alone: the timer is paused, or it runs
    /// once and is already over.
    pub open spec fn idle(self) -> bool {
        self.paused || (!self.repeating && self.finished)
    }

    /// Advancing by `delta` stays within what a span can hold.
    pub open spec fn can_tick(self, delta: nat) -> bool {
        self.idle() || self.elapsed + delta <= max_span_nanos()
    }

    /// The timer after `delta` nanoseconds went by.
    ///
    /// A paused timer only forgets that it had just finished (and, if it
    /// repeats, that it had finished). A one-shot timer that is over stays as
    /// it is. Otherwise time accumulates; on reaching the duration a one-shot
    /// timer stops exactly there, and a repeating one counts the full rounds
    /// and keeps the remainder.
    pub open spec fn ticked(self, delta: nat) -> TimerState {
        if self.paused {
            TimerState {
                times_finished: 0,
                finished: if self.repeating { false } else { self.finished },
                ..self
            }
        } else if !self.repeating && self.finished {
            TimerState { times_finished: 0, ..self }
        } else {
            let total = self.elapsed + delta;
            if total < self.duration {
                TimerState { elapsed: total, finished: false, times_finished: 0, ..self }
            } else if !self.repeating {
                TimerState { elapsed: self.duration, finished: true, times_finished: 1, ..self }
            } else if self.duration == 0 {
                TimerState { elapsed: 0, finished: true, times_finished: 0xffff_ffff, ..self }
            } else {
                TimerState {
                    elapsed: (total % self.duration) % 0x1_0000_0000_0000_0000,
                    finished: true,
                    times_finished: (total / self.duration) % 0x1_0000_0000,
                    ..self
                }
            }
        }
    }
}

/// `Stopwatch::clone`, which the engine derives: a copy, field by field.
pub assume_specification[ <Stopwatch as Clone>::clone ](watch: &Stopwatch) -> (copy: Stopwatch)
    ensures
        copy == *watch,
;

/// `Timer::clone`, which the engine derives: a copy, field by field.
pub assume_specification[ <Timer as Clone>::clone ](timer: &Timer) -> (copy: Timer)
    ensures
        copy == *timer,
;

/// `Duration::from_nanos`: the span of that many nanoseconds.
#[verifier::external_body]
pub(crate) fn span_from_nanos(nanos: u64) -> (span: Duration)
    ensures
        duration_nanos(span) == nanos,
{
    Duration::from_nanos(nanos)
}

/// `Duration::as_nanos`: the whole span in nanoseconds.
#[verifier::external_body]
pub(crate) fn span_nanos(span: &Duration) -> (nanos: u128)
    ensures
        nanos == duration_nanos(*span),
{
    span.as_nanos()
}

/// `Stopwatch::new`: a running stopwatch at zero.
#[verifier::external_body]
pub(crate) fn watch_new() -> (watch: Stopwatch)
    ensures
        stopwatch_elapsed_nanos(watch) == 0,
        !stopwatch_paused(watch),
{
    Stopwatch::new()
}

/// `Stopwatch::tick`: adds `delta` to the elapsed time unless the stopwatch
/// is paused. The addition panics past the longest span, which the
/// precondition rules out.
#[verifier::external_body]
pub(crate) fn watch_tick(watch: &mut Stopwatch, delta: &Duration)
    requires
        stopwatch_state(*old(watch)).can_tick(duration_nanos(*delta)),
    ensures
        stopwatch_state(*final(watch)) == stopwatch_state(*old(watch)).ticked(
            duration_nanos(*delta),
        ),
{
    watch.tick(*delta);
}

/// `Stopwatch::elapsed`: the time accumulated so far.
#[verifier::external_body]
pub(crate) fn watch_elapsed(watch: &Stopwatch) -> (span: Duration)
    ensures
        duration_nanos(span) == stopwatch_elapsed_nanos(*watch),
{
    watch.elapsed()
}

/// `Stopwatch::paused`: whether the stopwatch stands still.
#[verifier::external_body]
pub(crate) fn watch_paused(watch: &Stopwatch) -> (paused: bool)
    ensures
        paused == stopwatch_paused(*watch),
{
    watch.paused()
}

/// `Stopwatch::reset`: back to zero, paused or not as before.
#[verifier::external_body]
pub(crate) fn watch_reset(watch: &mut Stopwatch)
    ensures
        stopwatch_state(*final(watch)) == stopwatch_state(*old(watch)).reset(),
{
    watch.reset();
}

/// `Timer::new`: a running timer at zero with the given duration and mode.
#[verifier::external_body]
pub(crate) fn timer_new(duration: &Duration, mode: TimerMode) -> (timer: Timer)
    ensures
        timer_elapsed_nanos(timer) == 0,
        timer_duration_nanos(timer) == duration_nanos(*duration),
        timer_repeats(timer) == (mode == TimerMode::Repeating),
        !timer_is_finished(timer),
        timer_times_finished(timer) == 0,
        !timer_paused(timer),
{
    Timer::new(*duration, mode)
}

/// `Timer::tick`: advances the timer as `TimerState::ticked` describes. The
/// addition inside panics past the longest span, which the precondition
/// rules out.
#[verifier::external_body]
pub(crate) fn timer_tick(timer: &mut Timer, delta: &Duration)
    requires
        timer_state(*old(timer)).can_tick(duration_nanos(*delta)),
    ensures
        timer_state(*final(timer)) == timer_state(*old(timer)).ticked(duration_nanos(*delta)),
{
    timer.tick(*delta);
}

/// `Timer::elapsed`: the time the timer has run.
#[verifier::external_body]
pub(crate) fn timer_elapsed(timer: &Timer) -> (span: Duration)
    ensures
        duration_nanos(span) == timer_elapsed_nanos(*timer),
{
    timer.elapsed()
}

/// `Timer::paused`: whether the timer stands still.
#[verifier::external_body]
pub(crate) fn timer_is_paused(timer: &Timer) -> (paused: bool)
    ensures
        paused == timer_paused(*timer),
{
    timer.paused()
}

/// `Timer::mode`: whether the timer runs once or starts over.
#[verifier::external_body]
pub(crate) fn timer_mode(timer: &Timer) -> (mode: TimerMode)
    ensures
        (mode == TimerMode::Repeating) == timer_repeats(*timer),
{
    timer.mode()
}

/// `Timer::finished`: the timer has reached its duration.
#[verifier::external_body]
pub(crate) fn timer_finished(timer: &Timer) -> (done: bool)
    ensures
        done == timer_is_finished(*timer),
{
    timer.finished()
}

/// `Timer::just_finished`: the timer reached its duration during the latest
/// tick.
#[verifier::external_body]
pub(crate) fn timer_just_finished(timer: &Timer) -> (done: bool)
    ensures
        done == (timer_times_finished(*timer) > 0),
{
    timer.just_finished()
}

/// The two spans together are no longer than the longest span.
fn spans_fit(elapsed: &Duration, delta: &Duration) -> (fits: bool)
    ensures
        fits == (duration_nanos(*elapsed) + duration_nanos(*delta) <= max_span_nanos()),
{
    match span_nanos(elapsed).checked_add(span_nanos(delta)) {
        Some(sum) => sum <= MAX_SPAN_NANOS,
        None => false,
    }
}

/// Whether the stopwatch can run on by `delta`: whether it is paused, or
/// the time on it stays within the longest span.
pub fn watch_can_tick(watch: &Stopwatch, delta: &Duration) -> (fits: bool)
    ensures
        fits == stopwatch_state(*watch).can_tick(duration_nanos(*delta)),
{
    if watch_paused(watch) {
        true
    } else {
        let elapsed = watch_elapsed(watch);
        spans_fit(&elapsed, delta)
    }
}

/// Whether the timer can run on by `delta`: whether it is paused or over
/// for good, or the time on it stays within the longest span.
pub fn timer_can_tick(timer: &Timer, delta: &Duration) -> (fits: bool)
    ensures
        fits == timer_state(*timer).can_tick(duration_nanos(*delta)),
{
    if timer_is_paused(timer) {
        true
    } else {
        let once = match timer_mode(timer) {
            TimerMode::Once => true,
            TimerMode::Repeating => false,
        };
        if once && timer_finished(timer) {
            true
        } else {
            let elapsed = timer_elapsed(timer);
            spans_fit(&elapsed, delta)
        }
    }
}

} // verus!
