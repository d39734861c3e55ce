//! Pressure suit tiers.

use vstd::prelude::*;

verus! {

/// Suit tier determining depth rating.
#[derive(Debug, Clone, Copy, PartialEq, Eq, Structural)]
pub enum SuitTier {
    /// Basic suit, rated to 200m.
    Basic,
    /// Reinforced suit, rated to 500m.
    Reinforced,
    /// Pressure vessel, rated for any depth.
    Vessel,
}

impl SuitTier {
    /// The display name of a suit tier.
    pub open spec fn spec_name(self) -> Seq<char> {
        match self {
            SuitTier::Basic => "Basic Pressure Suit"@,
            SuitTier::Reinforced => "Reinforced Pressure Suit"@,
            SuitTier::Vessel => "Pressure Vessel"@,
        }
    }

    /// Human-readable tier name.
    pub fn name(self) -> (r: &'static str)
        ensures
            r@ == self.spec_name(),
    {
        match self {
            SuitTier::Basic => "Basic Pressure Suit",
            SuitTier::Reinforced => "Reinforced Pressure Suit",
            SuitTier::Vessel => "Pressure Vessel",
        }
    }
}

/// The display name of each pressure suit tier.
pub proof fn lemma_suit_tier_table()
    ensures
        SuitTier::Basic.spec_name() == "Basic Pressure Suit"@,
        SuitTier::Reinforced.spec_name() == "Reinforced Pressure Suit"@,
        SuitTier::Vessel.spec_name() == "Pressure Vessel"@,
{
}

} // verus!
