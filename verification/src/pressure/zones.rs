//! Depth zones and the pressure system's on/off switch.

use vstd::prelude::*;

verus! {

/// Number of defined depth zones.
pub const ZONE_COUNT: usize = 5;

/// A depth zone with associated pressure properties.
#[derive(Debug, Clone, Copy, PartialEq, Eq, Structural)]
pub enum DepthZone {
    /// 0-50m: Safe zone, no pressure damage.
    Sunlight,
    /// 50-200m: Moderate pressure, damage without suit.
    Twilight,
    /// 200-500m: High pressure, significant damage.
    Midnight,
    /// 500-1000m: Extreme pressure, deadly without reinforced suit.
    Abyssal,
    /// 1000m+: Crushing, instant death without pressure vessel.
    Hadal,
}

/// The zones from shallowest to deepest.
pub open spec fn spec_all_zones() -> Seq<DepthZone> {
    seq![DepthZone::Sunlight, DepthZone::Twilight, DepthZone::Midnight, DepthZone::Abyssal, DepthZone::Hadal]
}

impl DepthZone {
    /// All zones in depth order.
    pub const ALL: [DepthZone; ZONE_COUNT] = [
        DepthZone::Sunlight,
        DepthZone::Twilight,
        DepthZone::Midnight,
        DepthZone::Abyssal,
        DepthZone::Hadal,
    ];

    /// The display name of a zone.
    pub open spec fn spec_name(self) -> Seq<char> {
        match self {
            DepthZone::Sunlight => "Sunlight Zone"@,
            DepthZone::Twilight => "Twilight Zone"@,
            DepthZone::Midnight => "Midnight Zone"@,
            DepthZone::Abyssal => "Abyssal Zone"@,
            DepthZone::Hadal => "Hadal Zone"@,
        }
    }

    /// Pressure hurts an unsuited diver in every zone below the sunlight zone:
    /// base damage per second is 0 in the sunlight zone, then 1, 3, 5 and 100.
    pub open spec fn spec_requires_suit(self) -> bool {
        self != DepthZone::Sunlight
    }

    /// Human-readable zone name.
    pub fn name(self) -> (r: &'static str)
        ensures
            r@ == self.spec_name(),
    {
        match self {
            DepthZone::Sunlight => "Sunlight Zone",
            DepthZone::Twilight => "Twilight Zone",
            DepthZone::Midnight => "Midnight Zone",
            DepthZone::Abyssal => "Abyssal Zone",
            DepthZone::Hadal => "Hadal Zone",
        }
    }

    /// Whether this zone requires a suit to survive.
    pub fn requires_suit(self) -> (r: bool)
        ensures
            r == self.spec_requires_suit(),
    {
        match self {
            DepthZone::Sunlight => false,
            _ => true,
        }
    }
}

/// Manages pressure calculations for the game world.
#[derive(Debug, Clone)]
pub struct PressureZones {
    /// Whether pressure damage is enabled.
    enabled: bool,
}

impl PressureZones {
    /// Whether pressure damage is on.
    pub closed spec fn spec_enabled(&self) -> bool {
        self.enabled
    }

    /// The manager with pressure damage switched to `enabled`.
    pub closed spec fn spec_with_enabled(self, enabled: bool) -> Self {
        PressureZones { enabled }
    }

    /// Create a new pressure zone manager, with pressure damage on.
    pub fn new() -> (r: Self)
        ensures
            r.spec_enabled(),
    {
        Self { enabled: true }
    }

    /// Enable or disable pressure damage.
    pub fn set_enabled(&mut self, enabled: bool)
        ensures
            *final(self) == old(self).spec_with_enabled(enabled),
    {
        self.enabled = enabled;
    }

    /// Check if pressure damage is enabled.
    pub fn is_enabled(&self) -> (r: bool)
        ensures
            r == self.spec_enabled(),
    {
        self.enabled
    }
}

impl Default for PressureZones {
    fn default() -> (r: Self)
        ensures
            r.spec_enabled(),
    {
        Self::new()
    }
}

/// Pressure damage can be switched off and on again: after `set_enabled(b)`,
/// `is_enabled()` reads back `b`, whatever the switch was before.
pub proof fn lemma_switch_reads_back(z: PressureZones, b: bool)
    ensures
        z.spec_with_enabled(b).spec_enabled() == b,
        z.spec_with_enabled(b).spec_with_enabled(b) == z.spec_with_enabled(b),
{
}

/// Only the sunlight zone is safe without a suit, and the zones listed in depth
/// order are the five zones, each once.
pub proof fn lemma_zones_in_order(z: DepthZone)
    ensures
        !z.spec_requires_suit() <==> z == DepthZone::Sunlight,
        spec_all_zones().len() == ZONE_COUNT,
        spec_all_zones().contains(z),
        spec_all_zones()[0] == DepthZone::Sunlight,
        spec_all_zones()[1] == DepthZone::Twilight,
        spec_all_zones()[2] == DepthZone::Midnight,
        spec_all_zones()[3] == DepthZone::Abyssal,
        spec_all_zones()[ZONE_COUNT - 1] == DepthZone::Hadal,
        spec_all_zones().no_duplicates(),
{
    let a = spec_all_zones();
    match z {
        DepthZone::Sunlight => assert(a[0] == z),
        DepthZone::Twilight => assert(a[1] == z),
        DepthZone::Midnight => assert(a[2] == z),
        DepthZone::Abyssal => assert(a[3] == z),
        DepthZone::Hadal => assert(a[4] == z),
    }
}

/// Each pressure zone's name, and which zones need a suit: all but the sunlight zone.
pub proof fn lemma_depth_zone_table()
    ensures
        DepthZone::Sunlight.spec_name() == "Sunlight Zone"@,
        DepthZone::Twilight.spec_name() == "Twilight Zone"@,
        DepthZone::Midnight.spec_name() == "Midnight Zone"@,
        DepthZone::Abyssal.spec_name() == "Abyssal Zone"@,
        DepthZone::Hadal.spec_name() == "Hadal Zone"@,
        !DepthZone::Sunlight.spec_requires_suit(),
        DepthZone::Twilight.spec_requires_suit(),
        DepthZone::Midnight.spec_requires_suit(),
        DepthZone::Abyssal.spec_requires_suit(),
        DepthZone::Hadal.spec_requires_suit(),
{
}

} // verus!
