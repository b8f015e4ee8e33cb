//! Fixed-point units and the static configuration of the game.

use vstd::prelude::*;

verus! {

/// Sub-units per world unit. Every length, position and speed in the crate
/// is a whole number of sub-units (speeds: sub-units per second). A sampled
/// platform lies at thousandths of a range that is itself in tenths of a
/// world unit, so on this grid every sampled coordinate is exact.
pub const SCALE: i64 = 10_000;

/// Microseconds per second; time steps are given in microseconds.
pub const MICROS_PER_SECOND: u64 = 1_000_000;

/// Width of the window (1200 world units).
pub const WINDOW_WIDTH: i64 = 12_000_000;

/// Height of the window (800 world units).
pub const WINDOW_HEIGHT: i64 = 8_000_000;

/// Side of the square player (50 world units).
pub const PLAYER_SIZE: i64 = 500_000;

/// Half the side of the player.
pub const PLAYER_HALF: i64 = 250_000;

/// Height of every platform (20 world units).
pub const PLATFORM_HEIGHT: i64 = 200_000;

/// Half the height of a platform.
pub const PLATFORM_HALF_HEIGHT: i64 = 100_000;

/// Half the side of the square fruit (the fruit is 25 world units wide).
pub const FRUIT_HALF: i64 = 125_000;

/// Horizontal speed under full input (300 world units per second).
pub const PLAYER_SPEED: i64 = 3_000_000;

/// Share of [`PLAYER_SPEED`] that is kept while airborne, in thousandths.
pub const AIR_CONTROL_PERMILLE: i64 = 1000;

/// Vertical speed right after a jump (700 world units per second).
pub const JUMP_SPEED: i64 = 7_000_000;

/// Downward acceleration (2000 world units per second squared).
pub const GRAVITY: i64 = 20_000_000;

/// Largest magnitude of a coordinate, a width or a speed that the
/// arithmetic of this crate is proved for.
pub const LIMIT: i64 = 1_000_000_000_000;

/// Largest magnitude of a player coordinate that collision resolution is
/// proved for. One time step from within `LIMIT` stays within it.
pub const FAR_LIMIT: i64 = 1_000_000_000_000_000_000;

/// Absolute value over the integers.
pub open spec fn abs(v: int) -> int {
    if v < 0 {
        -v
    } else {
        v
    }
}

/// Whether a coordinate or speed lies within `-LIMIT ..= LIMIT`.
pub open spec fn within_limit(v: int) -> bool {
    -LIMIT <= v <= LIMIT
}

/// Distance between two coordinates.
pub fn distance(a: i64, b: i64) -> (d: i64)
    requires
        within_limit(a as int),
        within_limit(b as int),
    ensures
        d == abs(a - b),
{
    if a < b {
        b - a
    } else {
        a - b
    }
}

} // verus!
