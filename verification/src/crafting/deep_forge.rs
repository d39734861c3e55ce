//! Crafting stations: workbench (surface), deep forge (thermal vent), ancient altar (ruins).

use vstd::prelude::*;

verus! {

/// Crafting station type with depth requirements.
#[derive(Debug, Clone, Copy, PartialEq, Eq, Hash, Structural)]
pub enum DeepStation {
    /// Surface workbench - basic recipes.
    Workbench,
    /// Deep forge - requires thermal vent proximity. Advanced recipes.
    DeepForge,
    /// Ancient altar - requires ruins proximity. Endgame recipes.
    AncientAltar,
}

impl DeepStation {
    /// The display name of a station.
    pub open spec fn spec_name(self) -> Seq<char> {
        match self {
            DeepStation::Workbench => "Workbench"@,
            DeepStation::DeepForge => "Deep Forge"@,
            DeepStation::AncientAltar => "Ancient Altar"@,
        }
    }

    /// The feature a station must stand near, if any.
    pub open spec fn spec_required_feature(self) -> Option<Seq<char>> {
        match self {
            DeepStation::Workbench => None,
            DeepStation::DeepForge => Some("Thermal Vent"@),
            DeepStation::AncientAltar => Some("Ancient Ruins"@),
        }
    }

    /// Highest equipment tier level a station can craft.
    pub open spec fn spec_max_tier(self) -> u32 {
        match self {
            DeepStation::Workbench => 2,
            DeepStation::DeepForge => 3,
            DeepStation::AncientAltar => 4,
        }
    }

    /// Whether a station must stand near a feature: every station but the workbench
    /// has a positive proximity radius (16 blocks for the forge, 32 for the altar).
    pub open spec fn spec_requires_proximity(self) -> bool {
        self != DeepStation::Workbench
    }

    /// Human-readable name.
    pub fn name(&self) -> (r: &'static str)
        ensures
            r@ == self.spec_name(),
    {
        match self {
            DeepStation::Workbench => "Workbench",
            DeepStation::DeepForge => "Deep Forge",
            DeepStation::AncientAltar => "Ancient Altar",
        }
    }

    /// Whether this station requires a nearby feature.
    pub fn requires_proximity(&self) -> (r: bool)
        ensures
            r == self.spec_requires_proximity(),
    {
        match self {
            DeepStation::Workbench => false,
            DeepStation::DeepForge => true,
            DeepStation::AncientAltar => true,
        }
    }

    /// Feature name for proximity requirement.
    pub fn required_feature(&self) -> (r: Option<&'static str>)
        ensures
            match r {
                Some(s) => self.spec_required_feature() == Some(s@),
                None => self.spec_required_feature() is None,
            },
    {
        match self {
            DeepStation::Workbench => None,
            DeepStation::DeepForge => Some("Thermal Vent"),
            DeepStation::AncientAltar => Some("Ancient Ruins"),
        }
    }

    /// Maximum equipment tier this station can craft.
    pub fn max_tier(&self) -> (r: u32)
        ensures
            r == self.spec_max_tier(),
    {
        match self {
            DeepStation::Workbench => 2,
            DeepStation::DeepForge => 3,
            DeepStation::AncientAltar => 4,
        }
    }
}

/// A station needs a nearby feature exactly when it names one, and deeper
/// stations craft strictly higher tiers.
pub proof fn lemma_station_requirements(s: DeepStation)
    ensures
        s.spec_requires_proximity() <==> s.spec_required_feature() is Some,
        DeepStation::Workbench.spec_max_tier() < DeepStation::DeepForge.spec_max_tier(),
        DeepStation::DeepForge.spec_max_tier() < DeepStation::AncientAltar.spec_max_tier(),
{
}

/// Each crafting station's name, the world feature it must stand near (if any), whether
/// it needs one, and the highest equipment tier it crafts.
pub proof fn lemma_deep_station_table()
    ensures
        DeepStation::Workbench.spec_name() == "Workbench"@,
        DeepStation::DeepForge.spec_name() == "Deep Forge"@,
        DeepStation::AncientAltar.spec_name() == "Ancient Altar"@,
        DeepStation::Workbench.spec_required_feature() is None,
        DeepStation::DeepForge.spec_required_feature() == Some("Thermal Vent"@),
        DeepStation::AncientAltar.spec_required_feature() == Some("Ancient Ruins"@),
        DeepStation::Workbench.spec_max_tier() == 2,
        DeepStation::DeepForge.spec_max_tier() == 3,
        DeepStation::AncientAltar.spec_max_tier() == 4,
        !DeepStation::Workbench.spec_requires_proximity(),
        DeepStation::DeepForge.spec_requires_proximity(),
        DeepStation::AncientAltar.spec_requires_proximity(),
{
}

} // verus!
