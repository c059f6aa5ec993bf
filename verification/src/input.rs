//! The input phase: direction keys become a drive, and the drive changes the horizontal speed.

use vstd::prelude::*;
use crate::player::Player;
use crate::units::{saturate, saturating_sum, FRICTION, WALK_ACCEL};

verus! {

/// What the direction keys ask of the horizontal speed in one frame.
#[derive(Clone, Copy, Debug, PartialEq, Eq, Structural)]
pub enum HorizontalDrive {
    /// Speed up to the right.
    Right,
    /// Speed up to the left.
    Left,
    /// No key is held: slow down toward rest.
    Coast,
}

impl HorizontalDrive {
    /// The drive for a pair of key states. The right key wins over the left.
    pub open spec fn of_keys(right_held: bool, left_held: bool) -> HorizontalDrive {
        if right_held {
            HorizontalDrive::Right
        } else if left_held {
            HorizontalDrive::Left
        } else {
            HorizontalDrive::Coast
        }
    }

    /// The drive for a pair of key states. The right key wins over the left.
    pub fn from_keys(right_held: bool, left_held: bool) -> (out: HorizontalDrive)
        ensures
            out == HorizontalDrive::of_keys(right_held, left_held),
    {
        if right_held {
            HorizontalDrive::Right
        } else if left_held {
            HorizontalDrive::Left
        } else {
            HorizontalDrive::Coast
        }
    }
}

/// A speed moved toward zero by the friction of one frame, stopping at zero.
pub open spec fn slowed(vx: int) -> int {
    if vx > FRICTION {
        vx - FRICTION
    } else if vx < -FRICTION {
        vx + FRICTION
    } else {
        0
    }
}

/// A speed after `frames` frames of friction alone.
pub open spec fn coasted(vx: int, frames: nat) -> int
    decreases frames,
{
    if frames == 0 {
        vx
    } else {
        coasted(slowed(vx), (frames - 1) as nat)
    }
}

/// The horizontal speed after one frame under `drive`.
pub open spec fn driven(vx: int, drive: HorizontalDrive) -> int {
    match drive {
        HorizontalDrive::Right => saturate(vx + WALK_ACCEL),
        HorizontalDrive::Left => saturate(vx - WALK_ACCEL),
        HorizontalDrive::Coast => slowed(vx),
    }
}

impl Player {
    /// The player after the input phase of a frame with these key states.
    pub open spec fn after_input(self, right_held: bool, left_held: bool) -> Player {
        Player {
            vx: driven(self.vx as int, HorizontalDrive::of_keys(right_held, left_held)) as i16,
            ..self
        }
    }
}

/// Runs the input phase on `player`: the keys change the horizontal speed and nothing else.
pub fn handle_input_x(player: &mut Player, right_held: bool, left_held: bool)
    ensures
        *final(player) == old(player).after_input(right_held, left_held),
        final(player).vx == driven(
            old(player).vx as int,
            HorizontalDrive::of_keys(right_held, left_held),
        ),
{
    match HorizontalDrive::from_keys(right_held, left_held) {
        HorizontalDrive::Right => {
            player.vx = saturating_sum(player.vx, WALK_ACCEL);
        },
        HorizontalDrive::Left => {
            player.vx = saturating_sum(player.vx, -WALK_ACCEL);
        },
        HorizontalDrive::Coast => {
            if player.vx > 0 {
                let slower: i16 = player.vx - FRICTION;
                player.vx = if slower > 0 { slower } else { 0 };
            } else if player.vx < 0 {
                let slower: i16 = player.vx + FRICTION;
                player.vx = if slower < 0 { slower } else { 0 };
            }
        },
    }
}

/// Friction alone never carries a speed past zero: the speed keeps its sign
/// and does not grow.
pub proof fn friction_never_overshoots(vx: int)
    ensures
        vx >= 0 ==> 0 <= slowed(vx) <= vx,
        vx <= 0 ==> vx <= slowed(vx) <= 0,
        slowed(vx) == 0 <==> -FRICTION <= vx <= FRICTION,
{
}

/// After any number of frames of friction alone, a speed to the right has lost
/// the friction of each frame or has come to rest, and a speed to the left
/// likewise: it never changes sign.
pub proof fn coasting_comes_to_rest(vx: int, frames: nat)
    ensures
        vx >= 0 ==> coasted(vx, frames) == if vx > frames * FRICTION {
            vx - frames * FRICTION
        } else {
            0
        },
        vx <= 0 ==> coasted(vx, frames) == if vx < -(frames * FRICTION) {
            vx + frames * FRICTION
        } else {
            0
        },
    decreases frames,
{
    if frames > 0 {
        coasting_comes_to_rest(slowed(vx), (frames - 1) as nat);
    }
}

} // verus!
