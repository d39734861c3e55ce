//! Underwater world resources, tied to the depth where they are found.

use vstd::prelude::*;

verus! {

/// Resource category based on depth zone.
#[derive(Debug, Clone, Copy, PartialEq, Eq, Hash, Structural)]
pub enum ResourceCategory {
    /// Surface resources: kelp, coral, shells.
    Surface,
    /// Mid-depth resources: iron, crystal, salvage.
    Mid,
    /// Deep resources: abyssalite, thermal energy, artifacts.
    Deep,
    /// Living resources: fish, jellyfish, worms.
    Living,
}

impl ResourceCategory {
    /// The display name of a category.
    pub open spec fn spec_name(self) -> Seq<char> {
        match self {
            ResourceCategory::Surface => "Surface"@,
            ResourceCategory::Mid => "Mid-Depth"@,
            ResourceCategory::Deep => "Deep"@,
            ResourceCategory::Living => "Living"@,
        }
    }

    /// Human-readable category name.
    pub fn name(&self) -> (r: &'static str)
        ensures
            r@ == self.spec_name(),
    {
        match self {
            ResourceCategory::Surface => "Surface",
            ResourceCategory::Mid => "Mid-Depth",
            ResourceCategory::Deep => "Deep",
            ResourceCategory::Living => "Living",
        }
    }
}

/// Rarity level for resources.
#[derive(Debug, Clone, Copy, PartialEq, Eq, Hash, Structural)]
pub enum Rarity {
    Common,
    Uncommon,
    Rare,
    Legendary,
}

/// A resource type that can be found underwater.
#[derive(Debug, Clone, Copy, PartialEq, Eq, Hash, Structural)]
pub enum ResourceType {
    // Surface
    Kelp,
    Coral,
    Shell,
    Driftwood,
    // Mid-depth
    IronOre,
    Crystal,
    Salvage,
    Copper,
    // Deep
    Abyssalite,
    ThermalEnergy,
    AncientArtifact,
    PressureGem,
    // Living
    Fish,
    JellyfishCells,
    DeepWormHide,
    BioluminescentOrgan,
}

impl ResourceType {
    /// The category each resource belongs to: four resources per category.
    pub open spec fn spec_category(self) -> ResourceCategory {
        match self {
            ResourceType::Kelp | ResourceType::Coral | ResourceType::Shell
            | ResourceType::Driftwood => ResourceCategory::Surface,
            ResourceType::IronOre | ResourceType::Crystal | ResourceType::Salvage
            | ResourceType::Copper => ResourceCategory::Mid,
            ResourceType::Abyssalite | ResourceType::ThermalEnergy
            | ResourceType::AncientArtifact | ResourceType::PressureGem => ResourceCategory::Deep,
            ResourceType::Fish | ResourceType::JellyfishCells | ResourceType::DeepWormHide
            | ResourceType::BioluminescentOrgan => ResourceCategory::Living,
        }
    }

    /// The rarity of each resource.
    pub open spec fn spec_rarity(self) -> Rarity {
        match self {
            ResourceType::Kelp | ResourceType::Shell => Rarity::Common,
            ResourceType::Coral | ResourceType::Driftwood | ResourceType::Fish
            | ResourceType::IronOre | ResourceType::Copper | ResourceType::Salvage => Rarity::Uncommon,
            ResourceType::Crystal | ResourceType::JellyfishCells | ResourceType::Abyssalite
            | ResourceType::ThermalEnergy | ResourceType::DeepWormHide
            | ResourceType::BioluminescentOrgan => Rarity::Rare,
            ResourceType::AncientArtifact | ResourceType::PressureGem => Rarity::Legendary,
        }
    }

    /// The display name of each resource.
    pub open spec fn spec_name(self) -> Seq<char> {
        match self {
            ResourceType::Kelp => "Kelp"@,
            ResourceType::Coral => "Coral"@,
            ResourceType::Shell => "Shell"@,
            ResourceType::Driftwood => "Driftwood"@,
            ResourceType::IronOre => "Iron Ore"@,
            ResourceType::Crystal => "Crystal"@,
            ResourceType::Salvage => "Salvage"@,
            ResourceType::Copper => "Copper"@,
            ResourceType::Abyssalite => "Abyssalite"@,
            ResourceType::ThermalEnergy => "Thermal Energy"@,
            ResourceType::AncientArtifact => "Ancient Artifact"@,
            ResourceType::PressureGem => "Pressure Gem"@,
            ResourceType::Fish => "Fish"@,
            ResourceType::JellyfishCells => "Jellyfish Cells"@,
            ResourceType::DeepWormHide => "Deep Worm Hide"@,
            ResourceType::BioluminescentOrgan => "Bioluminescent Organ"@,
        }
    }

    /// Get the category for this resource.
    pub fn category(&self) -> (r: ResourceCategory)
        ensures
            r == self.spec_category(),
    {
        match self {
            ResourceType::Kelp | ResourceType::Coral | ResourceType::Shell
            | ResourceType::Driftwood => ResourceCategory::Surface,
            ResourceType::IronOre | ResourceType::Crystal | ResourceType::Salvage
            | ResourceType::Copper => ResourceCategory::Mid,
            ResourceType::Abyssalite | ResourceType::ThermalEnergy
            | ResourceType::AncientArtifact | ResourceType::PressureGem => ResourceCategory::Deep,
            ResourceType::Fish | ResourceType::JellyfishCells | ResourceType::DeepWormHide
            | ResourceType::BioluminescentOrgan => ResourceCategory::Living,
        }
    }

    /// Get the rarity of this resource.
    pub fn rarity(&self) -> (r: Rarity)
        ensures
            r == self.spec_rarity(),
    {
        match self {
            ResourceType::Kelp | ResourceType::Shell => Rarity::Common,
            ResourceType::Coral | ResourceType::Driftwood | ResourceType::Fish => Rarity::Uncommon,
            ResourceType::IronOre | ResourceType::Copper | ResourceType::Salvage => Rarity::Uncommon,
            ResourceType::Crystal | ResourceType::JellyfishCells => Rarity::Rare,
            ResourceType::Abyssalite | ResourceType::ThermalEnergy | ResourceType::DeepWormHide
            | ResourceType::BioluminescentOrgan => Rarity::Rare,
            ResourceType::AncientArtifact | ResourceType::PressureGem => Rarity::Legendary,
        }
    }

    /// Human-readable name.
    pub fn name(&self) -> (r: &'static str)
        ensures
            r@ == self.spec_name(),
    {
        match self {
            ResourceType::Kelp => "Kelp",
            ResourceType::Coral => "Coral",
            ResourceType::Shell => "Shell",
            ResourceType::Driftwood => "Driftwood",
            ResourceType::IronOre => "Iron Ore",
            ResourceType::Crystal => "Crystal",
            ResourceType::Salvage => "Salvage",
            ResourceType::Copper => "Copper",
            ResourceType::Abyssalite => "Abyssalite",
            ResourceType::ThermalEnergy => "Thermal Energy",
            ResourceType::AncientArtifact => "Ancient Artifact",
            ResourceType::PressureGem => "Pressure Gem",
            ResourceType::Fish => "Fish",
            ResourceType::JellyfishCells => "Jellyfish Cells",
            ResourceType::DeepWormHide => "Deep Worm Hide",
            ResourceType::BioluminescentOrgan => "Bioluminescent Organ",
        }
    }
}

/// The sixteen resources in the order the resource distribution scans them.
pub open spec fn spec_all_resources() -> Seq<ResourceType> {
    seq![
        ResourceType::Kelp, ResourceType::Coral, ResourceType::Shell, ResourceType::Driftwood,
        ResourceType::IronOre, ResourceType::Crystal, ResourceType::Salvage, ResourceType::Copper,
        ResourceType::Abyssalite, ResourceType::ThermalEnergy, ResourceType::AncientArtifact,
        ResourceType::PressureGem, ResourceType::Fish, ResourceType::JellyfishCells,
        ResourceType::DeepWormHide, ResourceType::BioluminescentOrgan,
    ]
}

/// Every resource type, in the order the resource distribution scans them.
pub fn all_resources() -> (r: Vec<ResourceType>)
    ensures
        r@ == spec_all_resources(),
{
    vec![
        ResourceType::Kelp, ResourceType::Coral, ResourceType::Shell, ResourceType::Driftwood,
        ResourceType::IronOre, ResourceType::Crystal, ResourceType::Salvage, ResourceType::Copper,
        ResourceType::Abyssalite, ResourceType::ThermalEnergy, ResourceType::AncientArtifact,
        ResourceType::PressureGem, ResourceType::Fish, ResourceType::JellyfishCells,
        ResourceType::DeepWormHide, ResourceType::BioluminescentOrgan,
    ]
}

/// The scan list names every resource type exactly once, so the distribution at
/// a depth considers each one, and none twice.
pub proof fn lemma_every_resource_listed(r: ResourceType)
    ensures
        spec_all_resources().contains(r),
        spec_all_resources().len() == 16,
        spec_all_resources().no_duplicates(),
{
    let s = spec_all_resources();
    match r {
        ResourceType::Kelp => assert(s[0] == r),
        ResourceType::Coral => assert(s[1] == r),
        ResourceType::Shell => assert(s[2] == r),
        ResourceType::Driftwood => assert(s[3] == r),
        ResourceType::IronOre => assert(s[4] == r),
        ResourceType::Crystal => assert(s[5] == r),
        ResourceType::Salvage => assert(s[6] == r),
        ResourceType::Copper => assert(s[7] == r),
        ResourceType::Abyssalite => assert(s[8] == r),
        ResourceType::ThermalEnergy => assert(s[9] == r),
        ResourceType::AncientArtifact => assert(s[10] == r),
        ResourceType::PressureGem => assert(s[11] == r),
        ResourceType::Fish => assert(s[12] == r),
        ResourceType::JellyfishCells => assert(s[13] == r),
        ResourceType::DeepWormHide => assert(s[14] == r),
        ResourceType::BioluminescentOrgan => assert(s[15] == r),
    }
}

/// The display name of each resource category.
pub proof fn lemma_resource_category_table()
    ensures
        ResourceCategory::Surface.spec_name() == "Surface"@,
        ResourceCategory::Mid.spec_name() == "Mid-Depth"@,
        ResourceCategory::Deep.spec_name() == "Deep"@,
        ResourceCategory::Living.spec_name() == "Living"@,
{
}

/// Every resource's category, rarity and display name, resource by resource: surface
/// finds are kelp, coral, shell and driftwood; ancient artifacts and pressure gems are
/// the only legendary ones.
pub proof fn lemma_resource_type_table()
    ensures
        ResourceType::Kelp.spec_category() == ResourceCategory::Surface,
        ResourceType::Coral.spec_category() == ResourceCategory::Surface,
        ResourceType::Shell.spec_category() == ResourceCategory::Surface,
        ResourceType::Driftwood.spec_category() == ResourceCategory::Surface,
        ResourceType::IronOre.spec_category() == ResourceCategory::Mid,
        ResourceType::Crystal.spec_category() == ResourceCategory::Mid,
        ResourceType::Salvage.spec_category() == ResourceCategory::Mid,
        ResourceType::Copper.spec_category() == ResourceCategory::Mid,
        ResourceType::Abyssalite.spec_category() == ResourceCategory::Deep,
        ResourceType::ThermalEnergy.spec_category() == ResourceCategory::Deep,
        ResourceType::AncientArtifact.spec_category() == ResourceCategory::Deep,
        ResourceType::PressureGem.spec_category() == ResourceCategory::Deep,
        ResourceType::Fish.spec_category() == ResourceCategory::Living,
        ResourceType::JellyfishCells.spec_category() == ResourceCategory::Living,
        ResourceType::DeepWormHide.spec_category() == ResourceCategory::Living,
        ResourceType::BioluminescentOrgan.spec_category() == ResourceCategory::Living,
        ResourceType::Kelp.spec_rarity() == Rarity::Common,
        ResourceType::Coral.spec_rarity() == Rarity::Uncommon,
        ResourceType::Shell.spec_rarity() == Rarity::Common,
        ResourceType::Driftwood.spec_rarity() == Rarity::Uncommon,
        ResourceType::IronOre.spec_rarity() == Rarity::Uncommon,
        ResourceType::Crystal.spec_rarity() == Rarity::Rare,
        ResourceType::Salvage.spec_rarity() == Rarity::Uncommon,
        ResourceType::Copper.spec_rarity() == Rarity::Uncommon,
        ResourceType::Abyssalite.spec_rarity() == Rarity::Rare,
        ResourceType::ThermalEnergy.spec_rarity() == Rarity::Rare,
        ResourceType::AncientArtifact.spec_rarity() == Rarity::Legendary,
        ResourceType::PressureGem.spec_rarity() == Rarity::Legendary,
        ResourceType::Fish.spec_rarity() == Rarity::Uncommon,
        ResourceType::JellyfishCells.spec_rarity() == Rarity::Rare,
        ResourceType::DeepWormHide.spec_rarity() == Rarity::Rare,
        ResourceType::BioluminescentOrgan.spec_rarity() == Rarity::Rare,
        ResourceType::Kelp.spec_name() == "Kelp"@,
        ResourceType::Coral.spec_name() == "Coral"@,
        ResourceType::Shell.spec_name() == "Shell"@,
        ResourceType::Driftwood.spec_name() == "Driftwood"@,
        ResourceType::IronOre.spec_name() == "Iron Ore"@,
        ResourceType::Crystal.spec_name() == "Crystal"@,
        ResourceType::Salvage.spec_name() == "Salvage"@,
        ResourceType::Copper.spec_name() == "Copper"@,
        ResourceType::Abyssalite.spec_name() == "Abyssalite"@,
        ResourceType::ThermalEnergy.spec_name() == "Thermal Energy"@,
        ResourceType::AncientArtifact.spec_name() == "Ancient Artifact"@,
        ResourceType::PressureGem.spec_name() == "Pressure Gem"@,
        ResourceType::Fish.spec_name() == "Fish"@,
        ResourceType::JellyfishCells.spec_name() == "Jellyfish Cells"@,
        ResourceType::DeepWormHide.spec_name() == "Deep Worm Hide"@,
        ResourceType::BioluminescentOrgan.spec_name() == "Bioluminescent Organ"@,
{
}

} // verus!
