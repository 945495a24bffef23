//! Fixed-point conventions and world constants.
//!
//! World coordinates and velocities are `i64` values in *milli-units*:
//! thousandths of a world unit. One world unit is [`UNIT`] = 1000.
//! Durations are `u64` milliseconds. Completion percentages are `u32`
//! values in thousandths of a percent, from 0 to [`PERCENT_SCALE`].

use vstd::prelude::*;

verus! {

/// One world unit, in milli-units.
pub const UNIT: i64 = 1000;

/// 100%, in thousandths of a percent.
pub const PERCENT_SCALE: u32 = 100_000;

/// The fixed x-coordinate at which the player spawns, in milli-units
/// (-200 world units).
pub const START_X: i64 = -200 * 1000;

/// The y-coordinate at which the player spawns, in milli-units
/// (6 world units).
pub const SPAWN_Y: i64 = 6 * 1000;

/// The ground reference height: the player counts as grounded at or below
/// this y-coordinate.
pub const GROUND_Y: i64 = 0;

/// Half the player's fixed bounding size (30 by 30 world units), in
/// milli-units.
pub const PLAYER_HALF_EXTENT: i64 = 15 * 1000;

/// Half the assumed obstacle size (25 by 25 world units), in milli-units;
/// used when no per-obstacle size is known.
pub const OBSTACLE_HALF_EXTENT: i64 = 12_500;

/// A point or extent in the 2D world, in milli-units.
#[derive(Clone, Copy, PartialEq, Eq, Structural, Debug)]
pub struct Vec2i {
    pub x: i64,
    pub y: i64,
}

} // verus!
