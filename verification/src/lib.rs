//! A fixed-timestep 2D rigid-body physics and collision-resolution engine for
//! a single controllable body moving through a world whose collision geometry
//! is encoded as colors in a raster image.
//!
//! All physical quantities (meters, seconds, newtons, kilograms and the
//! dimensionless bounce/friction coefficients) are fixed-point scalars: an
//! `i64` holding the value multiplied by [`fixed::SCALE`]. Every operation on
//! them is specified exactly, truncation and saturation included, so each
//! tick of the simulation is a deterministic, fully specified function of the
//! previous state, the world raster and the timestep.

pub mod constants;
pub mod errors;
pub mod vec2;
pub mod fixed;
pub mod raster;
pub mod world;
pub mod probe;
pub mod player;
pub mod laws;
pub mod objects;
