//! Physical constants of the simulation, as fixed-point scalars
//! (see [`crate::fixed::SCALE`]).

use vstd::prelude::*;

verus! {

/// Horizontal component of gravitational acceleration, m/s^2.
pub const GRAVITY_X: i64 = 0;

/// Vertical component of gravitational acceleration, m/s^2: the world's y
/// axis points up, so gravity pulls toward negative y.
pub const GRAVITY_Y: i64 = -9_806_650;

/// Size of one raster pixel in meters (1 px = 0.2 m in the reference world).
pub const MAP_PX_TO_METER: i64 = 200_000;

/// Conversion factor from grams to kilograms.
pub const GRAMS_TO_KG: i64 = 1_000;

} // verus!
