//! Fixed-point units, world bounds and the integer helpers shared by the phases.

use vstd::prelude::*;

verus! {

/// Subpixel units per display pixel.
pub const SUBPIXEL_RES: i16 = 128;

/// Screen width in display pixels.
pub const SCREEN_WIDTH: i16 = 320;

/// Screen height in display pixels.
pub const SCREEN_HEIGHT: i16 = 180;

/// Speed lost to gravity per second of elapsed time, in display pixels per frame.
pub const GRAVITY: i16 = 3;

/// Fastest fall in display pixels per frame.
pub const TERMINAL_VELOCITY: i16 = 10;

/// Upward speed given by a jump, unless a player is tuned otherwise.
pub const DEFAULT_JUMP_SPEED: i16 = 2 * SUBPIXEL_RES;

/// Speed to which a rising player is cut when the jump key is released early.
pub const DEFAULT_JUMP_HOVER_SPEED: i16 = 64;

/// Half the screen width in display pixels.
pub const HALF_WIDTH: i16 = 160;

/// Half the screen height in display pixels.
pub const HALF_HEIGHT: i16 = 90;

/// Half the side of a tile in display pixels: the player's collision half-extent.
pub const TILE_HALF_SIZE: i16 = 16;

/// The half-extent in subpixel units, kept free on each side of the world.
pub const MARGIN: i16 = TILE_HALF_SIZE * SUBPIXEL_RES;

/// Largest resolved `x`.
pub const MAX_X: i16 = HALF_WIDTH * SUBPIXEL_RES - MARGIN;

/// Smallest resolved `x`.
pub const MIN_X: i16 = -HALF_WIDTH * SUBPIXEL_RES + MARGIN;

/// Largest resolved `y`: the ceiling.
pub const MAX_Y: i16 = HALF_HEIGHT * SUBPIXEL_RES - MARGIN;

/// Smallest resolved `y`: the floor.
pub const MIN_Y: i16 = -HALF_HEIGHT * SUBPIXEL_RES + MARGIN;

/// Lowest vertical velocity that gravity produces, in subpixel units per frame.
pub const TERMINAL_FALL: i16 = -TERMINAL_VELOCITY * SUBPIXEL_RES;

/// Speed lost to gravity per second of elapsed time, in subpixel units per frame.
pub const GRAVITY_ACCEL: i16 = GRAVITY * SUBPIXEL_RES;

/// Speed gained per frame while a direction key is held.
pub const WALK_ACCEL: i16 = 10;

/// Speed lost per frame while no direction key is held.
pub const FRICTION: i16 = 30;

/// Nanoseconds per second of elapsed time.
pub const NANOS_PER_SEC: u64 = 1_000_000_000;

/// `v` limited to the closed interval from `lo` to `hi`.
pub open spec fn clamp(v: int, lo: int, hi: int) -> int {
    if v < lo {
        lo
    } else if v > hi {
        hi
    } else {
        v
    }
}

/// `v` limited to what a 16-bit signed coordinate can hold.
pub open spec fn saturate(v: int) -> int {
    clamp(v, i16::MIN as int, i16::MAX as int)
}

/// The quotient of `a` by a positive `d`, rounded toward zero.
pub open spec fn div_toward_zero(a: int, d: int) -> int
    recommends
        d > 0,
{
    if a >= 0 {
        a / d
    } else {
        -((-a) / d)
    }
}

/// The sum of two 16-bit values, held at the type's limits where it would leave them.
pub fn saturating_sum(a: i16, b: i16) -> (out: i16)
    ensures
        out == saturate(a + b),
{
    let wide: i32 = a as i32 + b as i32;
    if wide > i16::MAX as i32 {
        i16::MAX
    } else if wide < i16::MIN as i32 {
        i16::MIN
    } else {
        wide as i16
    }
}

/// A count of nanoseconds held at the longest time that one frame can take.
pub fn frame_nanos(nanos: u128) -> (out: u64)
    ensures
        out == clamp(nanos as int, 0, u64::MAX as int),
{
    if nanos > u64::MAX as u128 {
        u64::MAX
    } else {
        nanos as u64
    }
}

/// The values of the derived constants.
pub proof fn world_bounds_values()
    ensures
        HALF_WIDTH == SCREEN_WIDTH / 2,
        HALF_HEIGHT == SCREEN_HEIGHT / 2,
        DEFAULT_JUMP_HOVER_SPEED == SUBPIXEL_RES / 2,
        MARGIN == 2048,
        MAX_X == 18432,
        MIN_X == -18432,
        MAX_Y == 9472,
        MIN_Y == -9472,
        TERMINAL_FALL == -1280,
        GRAVITY_ACCEL == 384,
        DEFAULT_JUMP_SPEED == 256,
        DEFAULT_JUMP_HOVER_SPEED == 64,
{
}

} // verus!
