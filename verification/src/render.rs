//! Render sync: the subpixel position becomes a whole-pixel display transform.

use vstd::prelude::*;
use crate::player::Position;
use crate::units::{div_toward_zero, HALF_HEIGHT, HALF_WIDTH, SUBPIXEL_RES, TILE_HALF_SIZE};

verus! {

/// Where the sprite is drawn, in display pixels from the centre of the screen.
#[derive(Clone, Copy, Debug, PartialEq, Eq, Structural)]
pub struct DisplayTransform {
    pub x: i16,
    pub y: i16,
}

impl Position {
    /// The display transform of the position: each coordinate divided by the
    /// subpixel resolution and rounded toward zero.
    pub open spec fn projected(self) -> DisplayTransform {
        DisplayTransform {
            x: div_toward_zero(self.x as int, SUBPIXEL_RES as int) as i16,
            y: div_toward_zero(self.y as int, SUBPIXEL_RES as int) as i16,
        }
    }
}

impl DisplayTransform {
    /// The transform after a render sync with `position`. What it held before
    /// does not matter.
    pub open spec fn synced(self, position: Position) -> DisplayTransform {
        position.projected()
    }
}

/// Runs render sync: writes the display transform of `position` to `transform`.
pub fn position_movement(transform: &mut DisplayTransform, position: &Position)
    ensures
        *final(transform) == old(transform).synced(*position),
        final(transform).x == div_toward_zero(position.x as int, SUBPIXEL_RES as int),
        final(transform).y == div_toward_zero(position.y as int, SUBPIXEL_RES as int),
{
    transform.x = position.x / SUBPIXEL_RES;
    transform.y = position.y / SUBPIXEL_RES;
}

/// Render sync is idempotent: a second sync with the same position changes
/// nothing, and the result does not depend on what the transform held before.
pub proof fn render_sync_is_idempotent(a: DisplayTransform, b: DisplayTransform, position: Position)
    ensures
        a.synced(position).synced(position) == a.synced(position),
        a.synced(position) == b.synced(position),
{
}

/// A position within the world bounds is drawn within the screen, the
/// player's half-extent away from each edge.
pub proof fn projection_stays_on_screen(position: Position)
    requires
        position.in_bounds(),
    ensures
        -(HALF_WIDTH - TILE_HALF_SIZE) <= position.projected().x <= HALF_WIDTH - TILE_HALF_SIZE,
        -(HALF_HEIGHT - TILE_HALF_SIZE) <= position.projected().y <= HALF_HEIGHT - TILE_HALF_SIZE,
{
}

/// Rounding is toward zero on both sides, so mirrored positions are drawn mirrored.
pub proof fn projection_is_symmetric(x: int)
    ensures
        div_toward_zero(-x, SUBPIXEL_RES as int) == -div_toward_zero(x, SUBPIXEL_RES as int),
        -SUBPIXEL_RES < x < SUBPIXEL_RES ==> div_toward_zero(x, SUBPIXEL_RES as int) == 0,
{
}

} // verus!
