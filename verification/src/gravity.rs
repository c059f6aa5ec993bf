//! The gravity phase: an airborne player loses vertical speed with elapsed time,
//! down to the terminal fall speed.

use vstd::prelude::*;
use crate::player::Player;
use crate::units::{div_toward_zero, GRAVITY_ACCEL, NANOS_PER_SEC, TERMINAL_FALL};

verus! {

/// The vertical speed `vy` after `nanos` nanoseconds of free fall.
///
/// The speed drops by the gravity of the elapsed time, the result is rounded
/// toward zero to a whole subpixel unit, and it is held at the terminal fall
/// speed.
pub open spec fn fallen(vy: int, nanos: int) -> int {
    let exact = div_toward_zero(
        vy * NANOS_PER_SEC - GRAVITY_ACCEL * nanos,
        NANOS_PER_SEC as int,
    );
    if exact > TERMINAL_FALL {
        exact
    } else {
        TERMINAL_FALL as int
    }
}

impl Player {
    /// The player after the gravity phase of a frame that took `elapsed_nanos`.
    /// On the floor gravity rests.
    pub open spec fn after_gravity(self, elapsed_nanos: u64) -> Player {
        if self.is_on_floor {
            self
        } else {
            Player { vy: fallen(self.vy as int, elapsed_nanos as int) as i16, ..self }
        }
    }

    /// The player after one gravity phase for each of `frames`, in order,
    /// with nothing in between.
    pub open spec fn after_gravities(self, frames: Seq<u64>) -> Player
        decreases frames.len(),
    {
        if frames.len() == 0 {
            self
        } else {
            self.after_gravities(frames.drop_last()).after_gravity(frames.last())
        }
    }
}

/// Runs the gravity phase on `player` for a frame that took `elapsed_nanos` nanoseconds.
pub fn apply_gravity(player: &mut Player, elapsed_nanos: u64)
    ensures
        *final(player) == old(player).after_gravity(elapsed_nanos),
        !old(player).is_on_floor ==> final(player).vy == fallen(
            old(player).vy as int,
            elapsed_nanos as int,
        ),
        !old(player).is_on_floor ==> final(player).vy >= TERMINAL_FALL,
{
    if player.is_on_floor {
        return ;
    }
    let unit: i128 = NANOS_PER_SEC as i128;
    let pull: i128 = GRAVITY_ACCEL as i128;
    // With both factors known the products below are linear.
    assert(unit == 1_000_000_000 && pull == 384);
    let scaled: i128 = (player.vy as i128) * unit - pull * (elapsed_nanos as i128);
    let exact: i128 = scaled / unit;
    proof {
        fall_is_bounded(player.vy as int, elapsed_nanos as int);
    }
    player.vy = if exact > TERMINAL_FALL as i128 {
        exact as i16
    } else {
        TERMINAL_FALL
    };
}

/// Free fall gives a speed between the terminal fall speed and the speed it
/// started from, or the terminal fall speed itself where it started below.
pub proof fn fall_is_bounded(vy: int, nanos: int)
    requires
        nanos >= 0,
    ensures
        fallen(vy, nanos) >= TERMINAL_FALL,
        vy >= TERMINAL_FALL ==> fallen(vy, nanos) <= vy,
        vy <= TERMINAL_FALL ==> fallen(vy, nanos) == TERMINAL_FALL,
{
}

/// A frame that took no time leaves the speed of a player that falls no faster
/// than terminal as it is.
pub proof fn no_time_no_fall(vy: int)
    requires
        vy >= TERMINAL_FALL,
    ensures
        fallen(vy, 0) == vy,
{
}

/// The longer the frame, the lower the speed after it.
pub proof fn longer_falls_further(vy: int, shorter: int, longer: int)
    requires
        0 <= shorter <= longer,
    ensures
        fallen(vy, longer) <= fallen(vy, shorter),
{
}

/// However many gravity phases run on an airborne player and however long
/// their frames, the speed never drops below the terminal fall speed: after
/// at least one phase, or from the start where it began no lower. From there
/// it never rises either.
pub proof fn gravity_never_passes_terminal(player: Player, frames: Seq<u64>)
    requires
        !player.is_on_floor,
        frames.len() > 0 || player.vy >= TERMINAL_FALL,
    ensures
        !player.after_gravities(frames).is_on_floor,
        player.after_gravities(frames).vy >= TERMINAL_FALL,
        player.vy >= TERMINAL_FALL ==> player.after_gravities(frames).vy <= player.vy,
    decreases frames.len(),
{
    if frames.len() > 0 {
        let before = player.after_gravities(frames.drop_last());
        gravity_keeps_airborne(player, frames.drop_last());
        fall_is_bounded(before.vy as int, frames.last() as int);
        if frames.len() > 1 || player.vy >= TERMINAL_FALL {
            gravity_never_passes_terminal(player, frames.drop_last());
        }
    }
}

/// Gravity grounds nobody and lifts nobody off the floor.
pub proof fn gravity_keeps_airborne(player: Player, frames: Seq<u64>)
    ensures
        player.after_gravities(frames).is_on_floor == player.is_on_floor,
        player.is_on_floor ==> player.after_gravities(frames) == player,
    decreases frames.len(),
{
    if frames.len() > 0 {
        gravity_keeps_airborne(player, frames.drop_last());
    }
}

} // verus!
