//! The position phase: the position advances by the velocity of the frame.

use vstd::prelude::*;
use crate::player::{Player, Position};
use crate::units::{saturate, saturating_sum};

verus! {

impl Position {
    /// The position advanced by one frame at velocity `(vx, vy)`. Nothing is
    /// held to the world here; a coordinate that would leave the range of its
    /// type stays at the limit of that range.
    pub open spec fn moved_by(self, vx: int, vy: int) -> Position {
        Position { x: saturate(self.x + vx) as i16, y: saturate(self.y + vy) as i16 }
    }
}

/// Runs the position phase: advances `position` by the velocity of `player`.
pub fn integrate_position(position: &mut Position, player: &Player)
    ensures
        *final(position) == old(position).moved_by(player.vx as int, player.vy as int),
        final(position).x == saturate(old(position).x + player.vx),
        final(position).y == saturate(old(position).y + player.vy),
{
    position.x = saturating_sum(position.x, player.vx);
    position.y = saturating_sum(position.y, player.vy);
}

/// Where both sums fit in 16 bits the position phase is plain addition.
pub proof fn movement_is_addition(p: Position, vx: int, vy: int)
    requires
        i16::MIN <= p.x + vx <= i16::MAX,
        i16::MIN <= p.y + vy <= i16::MAX,
    ensures
        p.moved_by(vx, vy).x == p.x + vx,
        p.moved_by(vx, vy).y == p.y + vy,
{
}

} // verus!
