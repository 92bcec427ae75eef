//! The error taxonomy: configuration errors are fatal at construction time
//! and reject the construction; per-tick anomalies (see
//! [`crate::player::TickAnomaly`]) are surfaced to the caller and never stop
//! the simulation.

use vstd::prelude::*;

verus! {

/// A construction-time configuration error.
#[derive(Clone, Copy, Debug, PartialEq, Eq, Structural)]
pub enum ConfigurationError {
    /// The body's mass must be positive.
    NonPositiveMass,
    /// Both components of the body's size must be positive.
    NonPositiveSize,
    /// The world's pixel-to-meter scale must be positive.
    NonPositiveScale,
    /// The registry must carry an entry for the empty/background color.
    MissingBackgroundEntry,
}

} // verus!
