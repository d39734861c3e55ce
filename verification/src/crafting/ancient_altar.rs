//! The Ancient Altar: an endgame crafting station found in deep ruins, charged
//! with ancient artifacts, pressure gems and abyssalite.

use vstd::prelude::*;
use crate::crafting::equipment::EquipmentTier;
use crate::world::ResourceType;

verus! {

/// Charge an inserted resource gives: artifacts 50, pressure gems 25,
/// abyssalite 10, anything else nothing.
pub open spec fn spec_charge_gain(artifact: ResourceType) -> u32 {
    match artifact {
        ResourceType::AncientArtifact => 50,
        ResourceType::PressureGem => 25,
        ResourceType::Abyssalite => 10,
        _ => 0,
    }
}

/// Only three deep relics charge the altar: an ancient artifact gives 50, a
/// pressure gem 25 and abyssalite 10; every other resource gives nothing, so
/// inserting it leaves the altar's charge as it was. One artifact is enough to
/// make a craft possible, and no single insert gives more than one craft's cost.
pub proof fn lemma_charge_gains(r: ResourceType)
    ensures
        spec_charge_gain(ResourceType::AncientArtifact) == 50,
        spec_charge_gain(ResourceType::PressureGem) == 25,
        spec_charge_gain(ResourceType::Abyssalite) == 10,
        r != ResourceType::AncientArtifact && r != ResourceType::PressureGem
            && r != ResourceType::Abyssalite ==> spec_charge_gain(r) == 0,
        spec_charge_gain(r) > 0 <==> (r == ResourceType::AncientArtifact
            || r == ResourceType::PressureGem || r == ResourceType::Abyssalite),
        spec_charge_gain(r) <= AncientAltar::CRAFT_COST,
        spec_charge_gain(r) == AncientAltar::CRAFT_COST <==> r == ResourceType::AncientArtifact,
{
}

/// Ancient Altar crafting station. Charge is counted in whole units.
#[derive(Debug)]
pub struct AncientAltar {
    /// Whether the altar is active (powered by artifacts).
    active: bool,
    /// Current charge level (0-100, consumed per craft).
    charge: u32,
    /// Maximum charge.
    max_charge: u32,
    /// Number of items crafted at this altar.
    crafts_completed: u32,
}

impl AncientAltar {
    /// Charge cost per craft.
    pub const CRAFT_COST: u32 = 50;

    /// Maximum charge.
    pub const MAX_CHARGE: u32 = 100;

    /// Whether the altar is active.
    pub closed spec fn spec_active(&self) -> bool {
        self.active
    }

    /// Current charge.
    pub closed spec fn spec_charge(&self) -> u32 {
        self.charge
    }

    /// Number of completed crafts.
    pub closed spec fn spec_crafts(&self) -> u32 {
        self.crafts_completed
    }

    /// The altar's charge never exceeds the maximum, and the altar is active
    /// exactly when it holds enough charge for a craft.
    #[verifier::type_invariant]
    closed spec fn inv(&self) -> bool {
        &&& self.max_charge == Self::MAX_CHARGE
        &&& self.charge <= self.max_charge
        &&& self.active == (self.charge >= Self::CRAFT_COST)
    }

    /// Create a new inactive ancient altar.
    pub fn new() -> (r: Self)
        ensures
            !r.spec_active(),
            r.spec_charge() == 0,
            r.spec_crafts() == 0,
    {
        AncientAltar { active: false, charge: 0, max_charge: Self::MAX_CHARGE, crafts_completed: 0 }
    }

    /// Check if the altar is active: it is exactly when its charge covers a craft.
    pub fn is_active(&self) -> (r: bool)
        ensures
            r == self.spec_active(),
            r == (self.spec_charge() >= Self::CRAFT_COST),
    {
        proof { use_type_invariant(self); }
        self.active
    }

    /// Get the current charge level, never above the maximum.
    pub fn charge(&self) -> (r: u32)
        ensures
            r == self.spec_charge(),
            r <= Self::MAX_CHARGE,
    {
        proof { use_type_invariant(self); }
        self.charge
    }

    /// Get the charge as a percentage of the maximum (0-100).
    pub fn charge_percent(&self) -> (r: u32)
        ensures
            r == self.spec_charge() * 100 / (Self::MAX_CHARGE as int),
            r == self.spec_charge(),
    {
        proof { use_type_invariant(self); }
        self.charge * 100 / self.max_charge
    }

    /// Get the number of completed crafts.
    pub fn crafts_completed(&self) -> (r: u32)
        ensures
            r == self.spec_crafts(),
    {
        self.crafts_completed
    }

    /// Insert an artifact to charge the altar; returns the charge the resource is
    /// worth. Charge is capped at the maximum, and the altar activates once the
    /// charge covers a craft.
    pub fn insert_artifact(&mut self, artifact: ResourceType) -> (r: u32)
        ensures
            r == spec_charge_gain(artifact),
            final(self).spec_charge() == if old(self).spec_charge() + r > Self::MAX_CHARGE {
                Self::MAX_CHARGE
            } else {
                (old(self).spec_charge() + r) as u32
            },
            final(self).spec_active() == (final(self).spec_charge() >= Self::CRAFT_COST),
            final(self).spec_crafts() == old(self).spec_crafts(),
    {
        proof { use_type_invariant(&*self); }
        let charge_gain: u32 = match artifact {
            ResourceType::AncientArtifact => 50,
            ResourceType::PressureGem => 25,
            ResourceType::Abyssalite => 10,
            _ => 0,
        };
        if charge_gain > 0 {
            let sum = self.charge + charge_gain;
            let new_charge = if sum < self.max_charge { sum } else { self.max_charge };
            let now_active = if new_charge >= Self::CRAFT_COST { true } else { self.active };
            *self = AncientAltar {
                active: now_active,
                charge: new_charge,
                max_charge: self.max_charge,
                crafts_completed: self.crafts_completed,
            };
        }
        charge_gain
    }

    /// Check if the altar has enough charge to craft.
    pub fn can_craft(&self) -> (r: bool)
        ensures
            r == (self.spec_active() && self.spec_charge() >= Self::CRAFT_COST),
            r == (self.spec_charge() >= Self::CRAFT_COST),
    {
        proof { use_type_invariant(self); }
        self.active && self.charge >= Self::CRAFT_COST
    }

    /// Consume charge for crafting; returns whether a craft was paid for. A craft
    /// costs exactly the craft cost and counts one more completed craft.
    pub fn consume_charge(&mut self) -> (r: bool)
        requires
            old(self).spec_crafts() < u32::MAX,
        ensures
            r == (old(self).spec_charge() >= Self::CRAFT_COST),
            r ==> final(self).spec_charge() == old(self).spec_charge() - Self::CRAFT_COST,
            r ==> final(self).spec_crafts() == old(self).spec_crafts() + 1,
            !r ==> final(self).spec_charge() == old(self).spec_charge(),
            !r ==> final(self).spec_crafts() == old(self).spec_crafts(),
            final(self).spec_active() == (final(self).spec_charge() >= Self::CRAFT_COST),
    {
        proof { use_type_invariant(&*self); }
        if !self.can_craft() {
            return false;
        }
        let new_charge = self.charge - Self::CRAFT_COST;
        *self = AncientAltar {
            active: new_charge >= Self::CRAFT_COST,
            charge: new_charge,
            max_charge: self.max_charge,
            crafts_completed: self.crafts_completed + 1,
        };
        true
    }

    /// Get the list of endgame items this altar can craft.
    pub fn available_recipes() -> (r: Vec<AncientRecipe>)
        ensures
            r@ == spec_all_recipes(),
    {
        vec![
            AncientRecipe::PressureVessel,
            AncientRecipe::ThermalSuit,
            AncientRecipe::SonarBurst,
            AncientRecipe::PressureWave,
            AncientRecipe::LightNova,
        ]
    }
}

impl Clone for AncientAltar {
    fn clone(&self) -> (r: Self)
        ensures
            r.spec_active() == self.spec_active(),
            r.spec_charge() == self.spec_charge(),
            r.spec_crafts() == self.spec_crafts(),
    {
        proof { use_type_invariant(self); }
        AncientAltar {
            active: self.active,
            charge: self.charge,
            max_charge: self.max_charge,
            crafts_completed: self.crafts_completed,
        }
    }
}

impl Default for AncientAltar {
    fn default() -> (r: Self)
        ensures
            !r.spec_active(),
            r.spec_charge() == 0,
            r.spec_crafts() == 0,
    {
        Self::new()
    }
}

/// Endgame crafting recipes available at the Ancient Altar.
#[derive(Clone, Copy, Debug, PartialEq, Eq, Structural)]
pub enum AncientRecipe {
    /// Pressure vessel - maximum depth protection.
    PressureVessel,
    /// Thermal suit - immune to heat damage.
    ThermalSuit,
    /// Sonar burst weapon - reveals all creatures in range.
    SonarBurst,
    /// Pressure wave weapon - AoE damage.
    PressureWave,
    /// Light nova weapon - blinds and damages all nearby creatures.
    LightNova,
}

/// The five altar recipes, in the order the altar lists them.
pub open spec fn spec_all_recipes() -> Seq<AncientRecipe> {
    seq![
        AncientRecipe::PressureVessel,
        AncientRecipe::ThermalSuit,
        AncientRecipe::SonarBurst,
        AncientRecipe::PressureWave,
        AncientRecipe::LightNova,
    ]
}

impl AncientRecipe {
    /// The display name of a recipe.
    pub open spec fn spec_name(self) -> Seq<char> {
        match self {
            AncientRecipe::PressureVessel => "Pressure Vessel"@,
            AncientRecipe::ThermalSuit => "Thermal Suit"@,
            AncientRecipe::SonarBurst => "Sonar Burst"@,
            AncientRecipe::PressureWave => "Pressure Wave"@,
            AncientRecipe::LightNova => "Light Nova"@,
        }
    }

    /// The resources, with counts, that a recipe consumes.
    pub open spec fn spec_ingredients(self) -> Seq<(ResourceType, u32)> {
        match self {
            AncientRecipe::PressureVessel => seq![
                (ResourceType::PressureGem, 3u32),
                (ResourceType::Abyssalite, 10u32),
                (ResourceType::AncientArtifact, 1u32),
            ],
            AncientRecipe::ThermalSuit => seq![
                (ResourceType::Abyssalite, 8u32),
                (ResourceType::AncientArtifact, 1u32),
            ],
            AncientRecipe::SonarBurst => seq![
                (ResourceType::AncientArtifact, 2u32),
                (ResourceType::PressureGem, 1u32),
            ],
            AncientRecipe::PressureWave => seq![
                (ResourceType::AncientArtifact, 2u32),
                (ResourceType::Abyssalite, 5u32),
            ],
            AncientRecipe::LightNova => seq![
                (ResourceType::AncientArtifact, 3u32),
                (ResourceType::PressureGem, 2u32),
            ],
        }
    }

    /// Get the recipe name.
    pub fn name(&self) -> (r: &str)
        ensures
            r@ == self.spec_name(),
    {
        match self {
            AncientRecipe::PressureVessel => "Pressure Vessel",
            AncientRecipe::ThermalSuit => "Thermal Suit",
            AncientRecipe::SonarBurst => "Sonar Burst",
            AncientRecipe::PressureWave => "Pressure Wave",
            AncientRecipe::LightNova => "Light Nova",
        }
    }

    /// Get the ingredients required for this recipe.
    pub fn ingredients(&self) -> (r: Vec<(ResourceType, u32)>)
        ensures
            r@ == self.spec_ingredients(),
    {
        match self {
            AncientRecipe::PressureVessel => vec![
                (ResourceType::PressureGem, 3),
                (ResourceType::Abyssalite, 10),
                (ResourceType::AncientArtifact, 1),
            ],
            AncientRecipe::ThermalSuit => vec![
                (ResourceType::Abyssalite, 8),
                (ResourceType::AncientArtifact, 1),
            ],
            AncientRecipe::SonarBurst => vec![
                (ResourceType::AncientArtifact, 2),
                (ResourceType::PressureGem, 1),
            ],
            AncientRecipe::PressureWave => vec![
                (ResourceType::AncientArtifact, 2),
                (ResourceType::Abyssalite, 5),
            ],
            AncientRecipe::LightNova => vec![
                (ResourceType::AncientArtifact, 3),
                (ResourceType::PressureGem, 2),
            ],
        }
    }

    /// Get the equipment tier this recipe produces: always Endgame.
    pub fn tier(&self) -> (r: EquipmentTier)
        ensures
            r == EquipmentTier::Endgame,
    {
        EquipmentTier::Endgame
    }
}

/// Every altar recipe is made only from ancient artifacts, pressure gems and
/// abyssalite (all deep resources), needs at least one ancient artifact, and
/// produces an item no higher than the tier the Ancient Altar station crafts.
pub proof fn lemma_altar_recipes_use_deep_relics(recipe: AncientRecipe)
    ensures
        forall|i: int| 0 <= i < recipe.spec_ingredients().len() ==> {
            let r = #[trigger] recipe.spec_ingredients()[i].0;
            &&& (r == ResourceType::AncientArtifact || r == ResourceType::PressureGem
                || r == ResourceType::Abyssalite)
            &&& r.spec_category() == crate::world::ResourceCategory::Deep
        },
        exists|i: int| 0 <= i < recipe.spec_ingredients().len()
            && #[trigger] recipe.spec_ingredients()[i].0 == ResourceType::AncientArtifact,
        EquipmentTier::Endgame.spec_level()
            <= crate::crafting::deep_forge::DeepStation::AncientAltar.spec_max_tier(),
        spec_all_recipes().contains(recipe),
        spec_all_recipes().len() == 5,
        spec_all_recipes().no_duplicates(),
{
    let ing = recipe.spec_ingredients();
    match recipe {
        AncientRecipe::PressureVessel => { assert(ing[2].0 == ResourceType::AncientArtifact); },
        AncientRecipe::ThermalSuit => { assert(ing[1].0 == ResourceType::AncientArtifact); },
        _ => { assert(ing[0].0 == ResourceType::AncientArtifact); },
    }
    let all = spec_all_recipes();
    match recipe {
        AncientRecipe::PressureVessel => assert(all[0] == recipe),
        AncientRecipe::ThermalSuit => assert(all[1] == recipe),
        AncientRecipe::SonarBurst => assert(all[2] == recipe),
        AncientRecipe::PressureWave => assert(all[3] == recipe),
        AncientRecipe::LightNova => assert(all[4] == recipe),
    }
}

/// Each altar recipe's name and the ingredients, with counts, that it consumes.
pub proof fn lemma_ancient_recipe_table()
    ensures
        AncientRecipe::PressureVessel.spec_name() == "Pressure Vessel"@,
        AncientRecipe::ThermalSuit.spec_name() == "Thermal Suit"@,
        AncientRecipe::SonarBurst.spec_name() == "Sonar Burst"@,
        AncientRecipe::PressureWave.spec_name() == "Pressure Wave"@,
        AncientRecipe::LightNova.spec_name() == "Light Nova"@,
        AncientRecipe::PressureVessel.spec_ingredients() == seq![(ResourceType::PressureGem, 3u32), (ResourceType::Abyssalite, 10u32), (ResourceType::AncientArtifact, 1u32)],
        AncientRecipe::ThermalSuit.spec_ingredients() == seq![(ResourceType::Abyssalite, 8u32), (ResourceType::AncientArtifact, 1u32)],
        AncientRecipe::SonarBurst.spec_ingredients() == seq![(ResourceType::AncientArtifact, 2u32), (ResourceType::PressureGem, 1u32)],
        AncientRecipe::PressureWave.spec_ingredients() == seq![(ResourceType::AncientArtifact, 2u32), (ResourceType::Abyssalite, 5u32)],
        AncientRecipe::LightNova.spec_ingredients() == seq![(ResourceType::AncientArtifact, 3u32), (ResourceType::PressureGem, 2u32)],
{
}

} // verus!
