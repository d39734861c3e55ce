//! Bioluminescent organisms: living light sources harvested for bio light organs.

use vstd::prelude::*;
use crate::world::ResourceType;

verus! {

/// Glow intensity for bio organisms.
#[derive(Debug, Clone, Copy, PartialEq, Eq, Structural)]
pub enum GlowIntensity {
    /// Dim, barely visible.
    Dim,
    /// Moderate, clearly visible.
    Moderate,
    /// Bright, illuminates surroundings.
    Bright,
}

/// Type of bioluminescent organism.
#[derive(Debug, Clone, Copy, PartialEq, Eq, Hash, Structural)]
pub enum OrganismType {
    /// Glowing algae on surfaces.
    GlowAlgae,
    /// Deep sea fungus.
    DeepShroom,
    /// Floating light orb.
    LightOrb,
    /// Pulse worm in sediment.
    PulseWorm,
}

impl OrganismType {
    /// The display name of an organism.
    pub open spec fn spec_name(self) -> Seq<char> {
        match self {
            OrganismType::GlowAlgae => "Glow Algae"@,
            OrganismType::DeepShroom => "Deep Shroom"@,
            OrganismType::LightOrb => "Light Orb"@,
            OrganismType::PulseWorm => "Pulse Worm"@,
        }
    }

    /// Light orbs and pulse worms flicker; algae and shrooms glow steadily.
    pub open spec fn spec_flickers(self) -> bool {
        self == OrganismType::LightOrb || self == OrganismType::PulseWorm
    }

    /// Human-readable name.
    pub fn name(&self) -> (r: &'static str)
        ensures
            r@ == self.spec_name(),
    {
        match self {
            OrganismType::GlowAlgae => "Glow Algae",
            OrganismType::DeepShroom => "Deep Shroom",
            OrganismType::LightOrb => "Light Orb",
            OrganismType::PulseWorm => "Pulse Worm",
        }
    }

    /// Whether this organism flickers.
    pub fn flickers(&self) -> (r: bool)
        ensures
            r == self.spec_flickers(),
    {
        match self {
            OrganismType::LightOrb | OrganismType::PulseWorm => true,
            _ => false,
        }
    }

    /// Resource obtained from harvesting: always a bioluminescent organ.
    pub fn harvest_drop(&self) -> (r: ResourceType)
        ensures
            r == ResourceType::BioluminescentOrgan,
    {
        ResourceType::BioluminescentOrgan
    }
}

/// Harvesting an organism that is (`true`) or is not yet harvested: the new
/// harvested flag and the drop. Only the first harvest yields a bioluminescent organ.
pub open spec fn spec_harvest(harvested: bool) -> (bool, Option<ResourceType>) {
    if harvested {
        (true, None)
    } else {
        (true, Some(ResourceType::BioluminescentOrgan))
    }
}

/// Whether an organism has been harvested: each one yields its drop once.
#[derive(Debug, Clone, Copy, PartialEq, Eq, Structural)]
pub struct HarvestState {
    /// Whether already harvested.
    pub harvested: bool,
}

impl HarvestState {
    /// A fresh, unharvested organism.
    pub fn new() -> (r: Self)
        ensures
            !r.harvested,
    {
        HarvestState { harvested: false }
    }

    /// Harvest the organism, returning the resource on the first harvest only.
    pub fn harvest(&mut self, organism: OrganismType) -> (r: Option<ResourceType>)
        ensures
            (final(self).harvested, r) == spec_harvest(old(self).harvested),
    {
        if self.harvested {
            return None;
        }
        self.harvested = true;
        Some(organism.harvest_drop())
    }
}

/// An organism yields exactly one drop: harvesting a fresh organism gives a
/// bioluminescent organ, and harvesting it again gives nothing.
pub proof fn lemma_harvest_once()
    ensures
        spec_harvest(false).1 == Some(ResourceType::BioluminescentOrgan),
        spec_harvest(spec_harvest(false).0).1 is None,
        spec_harvest(spec_harvest(false).0).0,
{
}

/// Each glowing organism's name, and which ones flicker: light orbs and pulse worms do,
/// glow algae and deep shrooms glow steadily.
pub proof fn lemma_organism_type_table()
    ensures
        OrganismType::GlowAlgae.spec_name() == "Glow Algae"@,
        OrganismType::DeepShroom.spec_name() == "Deep Shroom"@,
        OrganismType::LightOrb.spec_name() == "Light Orb"@,
        OrganismType::PulseWorm.spec_name() == "Pulse Worm"@,
        !OrganismType::GlowAlgae.spec_flickers(),
        !OrganismType::DeepShroom.spec_flickers(),
        OrganismType::LightOrb.spec_flickers(),
        OrganismType::PulseWorm.spec_flickers(),
{
}

} // verus!
