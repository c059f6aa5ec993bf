//! The jump phase: one impulse per key press, cut short when the key is released early.

use vstd::prelude::*;
use crate::player::Player;

verus! {

impl Player {
    /// The player is still carried upward by a jump impulse.
    pub open spec fn rising(self) -> bool {
        self.is_jumping && self.vy > 0
    }

    /// The player after the jump phase of a frame in which the jump key is `held` or not.
    ///
    /// A press that was not yet seen starts a jump if the player stands on the
    /// floor. A key that stays down changes no speed. A release cuts a rising
    /// player down to its hover speed and ends the jump.
    pub open spec fn after_jump(self, held: bool) -> Player {
        if held {
            if !self.jump_started && self.is_on_floor {
                Player {
                    vy: self.jump_speed,
                    is_on_floor: false,
                    is_jumping: true,
                    jump_started: true,
                    ..self
                }
            } else {
                Player { is_jumping: self.rising(), jump_started: true, ..self }
            }
        } else {
            Player {
                vy: if self.rising() && self.vy > self.jump_hover_speed {
                    self.jump_hover_speed
                } else {
                    self.vy
                },
                is_jumping: false,
                jump_started: false,
                ..self
            }
        }
    }
}

/// Runs the jump phase on `player` and tells whether this frame saw a new key press.
pub fn handle_jump(player: &mut Player, jump_held: bool) -> (pressed: bool)
    ensures
        *final(player) == old(player).after_jump(jump_held),
        pressed == (jump_held && !old(player).jump_started),
{
    if player.vy <= 0 {
        player.is_jumping = false;
    }
    if jump_held {
        if !player.jump_started {
            player.jump_started = true;
            if player.is_on_floor {
                player.vy = player.jump_speed;
                player.is_jumping = true;
                player.is_on_floor = false;
            }
            true
        } else {
            false
        }
    } else {
        player.jump_started = false;
        if player.is_jumping && player.vy > player.jump_hover_speed {
            player.vy = player.jump_hover_speed;
        }
        player.is_jumping = false;
        false
    }
}

/// A new press on the floor sets the vertical speed to the jump speed and lifts
/// the player off the floor, whatever its speed was.
pub proof fn press_on_floor_gives_impulse(p: Player)
    requires
        p.is_on_floor,
        !p.jump_started,
    ensures
        p.after_jump(true).vy == p.jump_speed,
        !p.after_jump(true).is_on_floor,
        p.after_jump(true).is_jumping,
        p.after_jump(true).jump_started,
{
}

/// While the key of an earlier press stays down, the jump phase changes neither
/// the speed nor the grounding: one press gives one impulse.
pub proof fn held_key_adds_no_impulse(p: Player)
    requires
        p.jump_started,
    ensures
        p.after_jump(true).vy == p.vy,
        p.after_jump(true).is_on_floor == p.is_on_floor,
        p.after_jump(true).jump_started,
{
}

/// After the jump phase the debounce flag says whether the key is down, so a
/// key held over any number of frames is seen as a press in the first only.
pub proof fn debounce_follows_key(p: Player, first: bool, second: bool)
    ensures
        p.after_jump(first).jump_started == first,
        first && second ==> p.after_jump(first).after_jump(second).vy == p.after_jump(first).vy,
{
}

/// Releasing the key while the player rises faster than its hover speed cuts
/// the speed to exactly the hover speed and ends the jump.
pub proof fn release_cuts_to_hover(p: Player)
    requires
        p.rising(),
        p.vy > p.jump_hover_speed,
    ensures
        p.after_jump(false).vy == p.jump_hover_speed,
        !p.after_jump(false).is_jumping,
        !p.after_jump(false).jump_started,
{
}

/// Off the floor the jump phase never raises the vertical speed and never
/// grounds the player, whether the key is held or not.
pub proof fn airborne_jump_never_raises(p: Player, held: bool)
    requires
        !p.is_on_floor,
    ensures
        p.after_jump(held).vy <= p.vy,
        !p.after_jump(held).is_on_floor,
{
}

} // verus!
