//! Diving movement modes: equipment speed modifiers and buoyancy.

use vstd::prelude::*;

verus! {

/// Swimming speed modifier from equipment.
#[derive(Debug, Clone, Copy, PartialEq, Eq, Structural)]
pub enum SwimSpeedModifier {
    /// No modifier.
    Unmodified,
    /// Flippers: +50% speed.
    Flippers,
    /// Dive suit: -25% speed (pressure protection trade-off).
    DiveSuit,
    /// Both flippers and dive suit: net +12.5%.
    Both,
}

/// Buoyancy state: affects vertical drift.
#[derive(Debug, Clone, Copy, PartialEq, Eq, Structural)]
pub enum BuoyancyState {
    /// Positive buoyancy: drift upward.
    Ascending,
    /// Neutral buoyancy: no vertical drift.
    Neutral,
    /// Negative buoyancy: drift downward.
    Descending,
}

impl Default for BuoyancyState {
    /// Divers start neutrally buoyant.
    fn default() -> (r: Self)
        ensures
            r == BuoyancyState::Neutral,
    {
        BuoyancyState::Neutral
    }
}

} // verus!
