//! Ocean depth layers (sunlight to hadal) and the directions of trench branches.

use vstd::prelude::*;

verus! {

/// Depth zone identifier.
#[derive(Debug, Clone, Copy, PartialEq, Eq, Hash, Structural)]
pub enum DepthZone {
    /// 0-200m: Sunlight, warm, bright
    Sunlight,
    /// 200-500m: Twilight, dimming
    Twilight,
    /// 500-1000m: Midnight, dark, bioluminescent
    Midnight,
    /// 1000-6000m: Abyssal, near-freezing
    Abyssal,
    /// 6000m+: Hadal, extreme
    Hadal,
}

impl DepthZone {
    /// The display name of a zone.
    pub open spec fn spec_name(self) -> Seq<char> {
        match self {
            DepthZone::Sunlight => "Sunlight Zone"@,
            DepthZone::Twilight => "Twilight Zone"@,
            DepthZone::Midnight => "Midnight Zone"@,
            DepthZone::Abyssal => "Abyssal Zone"@,
            DepthZone::Hadal => "Hadal Zone"@,
        }
    }

    /// Position of the zone from the surface down, 0 to 4.
    pub open spec fn spec_rank(self) -> nat {
        match self {
            DepthZone::Sunlight => 0,
            DepthZone::Twilight => 1,
            DepthZone::Midnight => 2,
            DepthZone::Abyssal => 3,
            DepthZone::Hadal => 4,
        }
    }

    /// Human-readable zone name.
    pub fn name(&self) -> (r: &'static str)
        ensures
            r@ == self.spec_name(),
    {
        match self {
            DepthZone::Sunlight => "Sunlight Zone",
            DepthZone::Twilight => "Twilight Zone",
            DepthZone::Midnight => "Midnight Zone",
            DepthZone::Abyssal => "Abyssal Zone",
            DepthZone::Hadal => "Hadal Zone",
        }
    }
}

/// The next deeper zone, none below the hadal zone.
pub open spec fn spec_next_zone(zone: DepthZone) -> Option<DepthZone> {
    match zone {
        DepthZone::Sunlight => Some(DepthZone::Twilight),
        DepthZone::Twilight => Some(DepthZone::Midnight),
        DepthZone::Midnight => Some(DepthZone::Abyssal),
        DepthZone::Abyssal => Some(DepthZone::Hadal),
        DepthZone::Hadal => None,
    }
}

/// Get the next deeper zone (None for Hadal).
pub fn next_zone(zone: DepthZone) -> (r: Option<DepthZone>)
    ensures
        r == spec_next_zone(zone),
{
    match zone {
        DepthZone::Sunlight => Some(DepthZone::Twilight),
        DepthZone::Twilight => Some(DepthZone::Midnight),
        DepthZone::Midnight => Some(DepthZone::Abyssal),
        DepthZone::Abyssal => Some(DepthZone::Hadal),
        DepthZone::Hadal => None,
    }
}

/// Zones blend only into the zone just below: every zone but the hadal has a
/// next zone exactly one step deeper, so following next zones from the surface
/// passes through each zone once and stops at the hadal zone.
pub proof fn lemma_next_zone_one_deeper(z: DepthZone)
    ensures
        spec_next_zone(z) is None <==> z == DepthZone::Hadal,
        spec_next_zone(z) matches Some(n) ==> n.spec_rank() == z.spec_rank() + 1,
        z.spec_rank() <= 4,
        spec_next_zone(spec_next_zone(spec_next_zone(spec_next_zone(DepthZone::Sunlight)->0)->0)->0)
            == Some(DepthZone::Hadal),
{
}

/// Direction a branch cave extends from the main trench.
#[derive(Debug, Clone, Copy, PartialEq, Eq, Structural)]
pub enum BranchDirection {
    East,
    West,
}

/// Each ocean layer's name and its place from the surface down (sunlight first, hadal
/// last).
pub proof fn lemma_ocean_layer_table()
    ensures
        DepthZone::Sunlight.spec_name() == "Sunlight Zone"@,
        DepthZone::Twilight.spec_name() == "Twilight Zone"@,
        DepthZone::Midnight.spec_name() == "Midnight Zone"@,
        DepthZone::Abyssal.spec_name() == "Abyssal Zone"@,
        DepthZone::Hadal.spec_name() == "Hadal Zone"@,
        DepthZone::Sunlight.spec_rank() == 0,
        DepthZone::Twilight.spec_rank() == 1,
        DepthZone::Midnight.spec_rank() == 2,
        DepthZone::Abyssal.spec_rank() == 3,
        DepthZone::Hadal.spec_rank() == 4,
{
}

} // verus!
