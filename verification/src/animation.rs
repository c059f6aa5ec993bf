//! Sprite animation: a repeating timer steps through the frames of a sprite sheet.

use bevy::time::{Timer, TimerMode};
use std::time::Duration;
use vstd::arithmetic::div_mod::{lemma_basic_div, lemma_mod_bound, lemma_small_mod};
use vstd::prelude::*;

verus! {

/// The time that a repeating timer of period `period` shows after a tick of
/// `delta` that found it at `elapsed`: the timer wraps around at its period.
/// A timer without a period always shows zero.
pub open spec fn wrapped_elapsed(elapsed: int, period: int, delta: int) -> int {
    if period == 0 {
        0
    } else {
        (elapsed + delta) % period
    }
}

/// How many times the timer reached its period during that tick, as the
/// engine counts it: in 32 bits, and as often as 32 bits can say for a timer
/// without a period.
pub open spec fn laps_counted(elapsed: int, period: int, delta: int) -> int {
    if period == 0 {
        u32::MAX as int
    } else {
        ((elapsed + delta) / period) % 0x1_0000_0000
    }
}

/// The repeating timer of an animation and the number of frames on its sprite sheet.
#[derive(Clone, Copy, Debug, PartialEq, Eq, Structural)]
pub struct AnimationTimer {
    /// Time since the timer last wrapped around, in nanoseconds.
    pub elapsed_nanos: u64,
    /// Time for which one frame is shown, in nanoseconds.
    pub period_nanos: u64,
    pub frame_count: usize,
}

impl AnimationTimer {
    /// The timer after a tick of `delta_nanos`.
    pub open spec fn ticked(self, delta_nanos: u64) -> AnimationTimer {
        AnimationTimer {
            elapsed_nanos: wrapped_elapsed(
                self.elapsed_nanos as int,
                self.period_nanos as int,
                delta_nanos as int,
            ) as u64,
            ..self
        }
    }

    /// A tick of `delta_nanos` moves the animation on by one frame.
    pub open spec fn finishes(self, delta_nanos: u64) -> bool {
        laps_counted(self.elapsed_nanos as int, self.period_nanos as int, delta_nanos as int) > 0
    }

    /// A timer that has not run yet.
    pub fn new(period_nanos: u64, frame_count: usize) -> (out: AnimationTimer)
        ensures
            out == (AnimationTimer { elapsed_nanos: 0, period_nanos, frame_count }),
    {
        AnimationTimer { elapsed_nanos: 0, period_nanos, frame_count }
    }
}

/// The frame after `index` on a sheet of `frame_count` frames, the first frame
/// following the last.
pub open spec fn following_frame(index: int, frame_count: int) -> int {
    (index + 1) % frame_count
}

/// Makes a repeating `bevy::time::Timer` of period `period_nanos` that shows
/// `elapsed_nanos`, calls `Timer::tick` on it with `delta_nanos`, and returns
/// what `Timer::elapsed` and `Timer::just_finished` say afterwards.
///
/// Believed of the engine's timer, not proved: a tick adds the delta to the
/// elapsed time; if the sum reaches the period, the timer counts the whole
/// periods in the sum, keeps that count in 32 bits, and keeps the remainder
/// of the sum as its elapsed time; `just_finished` tells whether the count is
/// above zero. With a period of zero the count is `u32::MAX` and the elapsed
/// time zero. No sum of two 64-bit counts of nanoseconds is too long for the
/// timer to hold.
#[verifier::external_body]
fn tick_repeating(elapsed_nanos: u64, period_nanos: u64, delta_nanos: u64) -> (out: (u64, bool))
    ensures
        out.0 == wrapped_elapsed(elapsed_nanos as int, period_nanos as int, delta_nanos as int),
        out.1 == (laps_counted(elapsed_nanos as int, period_nanos as int, delta_nanos as int) > 0),
{
    let mut timer = Timer::new(Duration::from_nanos(period_nanos), TimerMode::Repeating);
    timer.set_elapsed(Duration::from_nanos(elapsed_nanos));
    timer.tick(Duration::from_nanos(delta_nanos));
    (timer.elapsed().as_nanos() as u64, timer.just_finished())
}

/// The frame to show after a tick: the following frame if the timer finished
/// during the tick, else the same frame.
pub fn advance_frame(index: usize, frame_count: usize, finished: bool) -> (next: usize)
    requires
        finished ==> frame_count > 0 && index < usize::MAX,
    ensures
        next == if finished {
            following_frame(index as int, frame_count as int)
        } else {
            index as int
        },
        finished ==> next < frame_count,
{
    if finished {
        (index + 1) % frame_count
    } else {
        index
    }
}

/// Ticks `timer` by `delta_nanos` and returns the frame to show after `index`:
/// the following frame if the timer finished during the tick, else `index`.
pub fn animate_sprite(timer: &mut AnimationTimer, delta_nanos: u64, index: usize) -> (next: usize)
    requires
        old(timer).finishes(delta_nanos) ==> old(timer).frame_count > 0 && index < usize::MAX,
    ensures
        *final(timer) == old(timer).ticked(delta_nanos),
        next == if old(timer).finishes(delta_nanos) {
            following_frame(index as int, old(timer).frame_count as int)
        } else {
            index as int
        },
{
    let (elapsed, finished) = tick_repeating(timer.elapsed_nanos, timer.period_nanos, delta_nanos);
    timer.elapsed_nanos = elapsed;
    advance_frame(index, timer.frame_count, finished)
}

/// A timer with a period shows less than its period after every tick, and a
/// tick shorter than what is left of the period moves the animation on by no frame.
pub proof fn timer_stays_within_period(timer: AnimationTimer, delta_nanos: u64)
    requires
        timer.period_nanos > 0,
    ensures
        timer.ticked(delta_nanos).elapsed_nanos < timer.period_nanos,
        timer.elapsed_nanos + delta_nanos < timer.period_nanos ==> !timer.finishes(delta_nanos)
            && timer.ticked(delta_nanos).elapsed_nanos == timer.elapsed_nanos + delta_nanos,
{
    let total = timer.elapsed_nanos + delta_nanos;
    let period = timer.period_nanos as int;
    lemma_mod_bound(total, period);
    if total < period {
        lemma_basic_div(total, period);
        lemma_small_mod(total as nat, period as nat);
    }
}

} // verus!
