//! The player's state: where it is, how fast it moves, and its jump flags.

use vstd::prelude::*;
use crate::units::{DEFAULT_JUMP_HOVER_SPEED, DEFAULT_JUMP_SPEED, MAX_X, MAX_Y, MIN_X, MIN_Y};

verus! {

/// A point of the world in subpixel units. `y` grows upward.
#[derive(Clone, Copy, Debug, PartialEq, Eq, Structural)]
pub struct Position {
    pub x: i16,
    pub y: i16,
}

impl Position {
    /// The point lies within the world bounds, edges included.
    pub open spec fn in_bounds(self) -> bool {
        &&& MIN_X <= self.x <= MAX_X
        &&& MIN_Y <= self.y <= MAX_Y
    }

    /// The centre of the screen, where a player is spawned.
    pub fn origin() -> (out: Position)
        ensures
            out == (Position { x: 0, y: 0 }),
            out.in_bounds(),
    {
        Position { x: 0, y: 0 }
    }

    /// Whether the point lies within the world bounds, edges included.
    pub fn is_in_bounds(&self) -> (out: bool)
        ensures
            out == self.in_bounds(),
    {
        MIN_X <= self.x && self.x <= MAX_X && MIN_Y <= self.y && self.y <= MAX_Y
    }
}

/// Velocity in subpixel units per frame, the jump flags, and the jump tuning.
#[derive(Clone, Copy, Debug, PartialEq, Eq, Structural)]
pub struct Player {
    pub vx: i16,
    pub vy: i16,
    /// Set by a collision with the floor; while set, gravity rests and a jump may start.
    pub is_on_floor: bool,
    /// Set from the jump impulse until the apex or the release of the key.
    pub is_jumping: bool,
    pub jump_hover_speed: i16,
    pub jump_speed: i16,
    /// Set while the key that was last pressed is still held, so that one press gives one jump.
    pub jump_started: bool,
}

impl Player {
    /// A resting player with the default tuning: grounded, not jumping, no key remembered.
    pub open spec fn at_rest() -> Player {
        Player {
            vx: 0,
            vy: 0,
            is_on_floor: true,
            is_jumping: false,
            jump_hover_speed: DEFAULT_JUMP_HOVER_SPEED,
            jump_speed: DEFAULT_JUMP_SPEED,
            jump_started: false,
        }
    }
}

impl Default for Player {
    /// A resting player with the default tuning: grounded, not jumping, no key remembered.
    fn default() -> (out: Player)
        ensures
            out == Player::at_rest(),
    {
        Player {
            jump_speed: DEFAULT_JUMP_SPEED,
            jump_hover_speed: DEFAULT_JUMP_HOVER_SPEED,
            vx: 0,
            vy: 0,
            is_on_floor: true,
            is_jumping: false,
            jump_started: false,
        }
    }
}

} // verus!
