//! The player: the physics state machine that owns the body's state and
//! advances it one fixed tick at a time.

pub mod phys;

pub use phys::HorizontalDirection;
pub use phys::PlayerPhys;
pub use phys::TickAnomaly;
