//! Pressure: the five depth zones, the pressure-damage switch, and suit tiers.

pub mod suit;
pub mod zones;

pub use suit::SuitTier;
pub use zones::{DepthZone, PressureZones};
