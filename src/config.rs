//! Fixed geometry and timing of the simulation.

use vstd::prelude::*;

verus! {

/// Width of the simulated area.
pub const WINDOW_WIDTH: i32 = 800;

/// Height of the simulated area.
pub const WINDOW_HEIGHT: i32 = 800;

/// Width of one vehicle.
pub const VEHICLE_WIDTH: i32 = 20;

/// Height of one vehicle.
pub const VEHICLE_HEIGHT: i32 = 20;

/// Smallest speed a new vehicle may get.
pub const MIN_VELOCITY: i32 = 2;

/// Bound (exclusive) on the speed a new vehicle may get.
pub const MAX_VELOCITY: i32 = 3;

/// Smallest gap kept between consecutive vehicles of a queue.
pub const SAFETY_DISTANCE: i32 = 30;

/// Ticks per second.
pub const FPS: u64 = 60;

/// Largest coordinate magnitude at which a tick is still computed exactly
/// in `i32`.
pub const POSITION_LIMIT: i32 = 1_000_000_000;

/// Horizontal centre of the intersection, half of `WINDOW_WIDTH`.
pub const CENTER_X: i32 = 400;

/// Vertical centre of the intersection, half of `WINDOW_HEIGHT`.
pub const CENTER_Y: i32 = 400;

} // verus!
