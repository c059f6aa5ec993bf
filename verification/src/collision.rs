//! The collision phases: each axis is held to the world bounds on its own,
//! first X, then Y, and the floor decides whether the player is grounded.

use vstd::prelude::*;
use crate::player::{Player, Position};
use crate::units::{clamp, MAX_X, MAX_Y, MIN_X, MIN_Y};

verus! {

/// A velocity component after its axis was held to `lo..=hi` at coordinate
/// `at`: at or below the lower bound it no longer points down, at or above the
/// upper bound it no longer points up, and in between it is unchanged.
pub open spec fn blocked(v: int, at: int, lo: int, hi: int) -> int {
    if at <= lo {
        if v < 0 {
            0
        } else {
            v
        }
    } else if at >= hi {
        if v > 0 {
            0
        } else {
            v
        }
    } else {
        v
    }
}

impl Position {
    /// The position with `x` held to the world bounds.
    pub open spec fn resolved_x(self) -> Position {
        Position { x: clamp(self.x as int, MIN_X as int, MAX_X as int) as i16, ..self }
    }

    /// The position with `y` held to the world bounds.
    pub open spec fn resolved_y(self) -> Position {
        Position { y: clamp(self.y as int, MIN_Y as int, MAX_Y as int) as i16, ..self }
    }
}

impl Player {
    /// The player after the X collision phase at `position`: the horizontal
    /// speed no longer points into a wall that the position has reached.
    pub open spec fn after_x_collision(self, position: Position) -> Player {
        Player {
            vx: blocked(self.vx as int, position.x as int, MIN_X as int, MAX_X as int) as i16,
            ..self
        }
    }

    /// The player after the Y collision phase at `position`: the vertical
    /// speed no longer points into the floor or the ceiling that the position
    /// has reached, and the player is grounded exactly if it has reached the floor.
    pub open spec fn after_y_collision(self, position: Position) -> Player {
        Player {
            vy: blocked(self.vy as int, position.y as int, MIN_Y as int, MAX_Y as int) as i16,
            is_on_floor: position.y <= MIN_Y,
            ..self
        }
    }
}

/// Runs the X collision phase: holds `position.x` to the world bounds and stops
/// the horizontal speed at a wall.
pub fn handle_x_collisions(position: &mut Position, player: &mut Player)
    ensures
        *final(position) == old(position).resolved_x(),
        *final(player) == old(player).after_x_collision(*old(position)),
        MIN_X <= final(position).x <= MAX_X,
{
    if position.x <= MIN_X {
        position.x = MIN_X;
        if player.vx < 0 {
            player.vx = 0;
        }
    }
    if position.x >= MAX_X {
        position.x = MAX_X;
        if player.vx > 0 {
            player.vx = 0;
        }
    }
}

/// Runs the Y collision phase: forgets the grounding, holds `position.y` to the
/// world bounds, stops the vertical speed at the floor and the ceiling, and
/// grounds the player on the floor only.
pub fn handle_y_collisions(position: &mut Position, player: &mut Player)
    ensures
        *final(position) == old(position).resolved_y(),
        *final(player) == old(player).after_y_collision(*old(position)),
        MIN_Y <= final(position).y <= MAX_Y,
        final(player).is_on_floor == (old(position).y <= MIN_Y),
{
    player.is_on_floor = false;
    if position.y <= MIN_Y {
        position.y = MIN_Y;
        if player.vy < 0 {
            player.vy = 0;
        }
        player.is_on_floor = true;
    }
    if position.y >= MAX_Y {
        position.y = MAX_Y;
        if player.vy > 0 {
            player.vy = 0;
        }
    }
}

/// After both collision phases the position lies within the world bounds,
/// wherever it was before.
pub proof fn resolved_position_in_bounds(p: Position)
    ensures
        p.resolved_x().resolved_y().in_bounds(),
        p.in_bounds() ==> p.resolved_x().resolved_y() == p,
{
}

/// Whether the player is grounded after the Y collision phase depends on the
/// position alone, not on whether it was grounded before: the phase starts
/// from an airborne player and only its own floor test grounds it.
pub proof fn grounding_is_recomputed(a: Player, b: Player, position: Position)
    ensures
        a.after_y_collision(position).is_on_floor == b.after_y_collision(position).is_on_floor,
        a.after_y_collision(position).is_on_floor <==> position.resolved_y().y == MIN_Y,
        position.y > MIN_Y ==> !a.after_y_collision(position).is_on_floor,
{
}

/// At a wall, floor or ceiling the resolved velocity never points out of the world.
pub proof fn resolved_velocity_points_inward(p: Player, position: Position)
    ensures
        position.resolved_x().x == MIN_X ==> p.after_x_collision(position).vx >= 0,
        position.resolved_x().x == MAX_X ==> p.after_x_collision(position).vx <= 0,
        position.resolved_y().y == MIN_Y ==> p.after_y_collision(position).vy >= 0,
        position.resolved_y().y == MAX_Y ==> p.after_y_collision(position).vy <= 0,
{
}

} // verus!
