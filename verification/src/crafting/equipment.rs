//! Diving equipment tiers and slots, and the materials that craft each piece.

use vstd::prelude::*;
use crate::world::ResourceType;

verus! {

/// Equipment tier.
#[derive(Debug, Clone, Copy, PartialEq, Eq, Hash, PartialOrd, Ord, Structural)]
pub enum EquipmentTier {
    Basic,
    Standard,
    Advanced,
    Endgame,
}

impl EquipmentTier {
    /// Tier number, from 1 (Basic) to 4 (Endgame).
    pub open spec fn spec_level(self) -> u32 {
        match self {
            EquipmentTier::Basic => 1,
            EquipmentTier::Standard => 2,
            EquipmentTier::Advanced => 3,
            EquipmentTier::Endgame => 4,
        }
    }

    /// Tier number (1-4).
    pub fn level(&self) -> (r: u32)
        ensures
            r == self.spec_level(),
    {
        match self {
            EquipmentTier::Basic => 1,
            EquipmentTier::Standard => 2,
            EquipmentTier::Advanced => 3,
            EquipmentTier::Endgame => 4,
        }
    }
}

/// Equipment slot.
#[derive(Debug, Clone, Copy, PartialEq, Eq, Hash, Structural)]
pub enum EquipmentSlot {
    Suit,
    Tank,
    Mask,
    Flippers,
    Light,
}

impl EquipmentSlot {
    /// The display name of a slot.
    pub open spec fn spec_name(self) -> Seq<char> {
        match self {
            EquipmentSlot::Suit => "Suit"@,
            EquipmentSlot::Tank => "Tank"@,
            EquipmentSlot::Mask => "Mask"@,
            EquipmentSlot::Flippers => "Flippers"@,
            EquipmentSlot::Light => "Light"@,
        }
    }

    /// Human-readable name.
    pub fn name(&self) -> (r: &'static str)
        ensures
            r@ == self.spec_name(),
    {
        match self {
            EquipmentSlot::Suit => "Suit",
            EquipmentSlot::Tank => "Tank",
            EquipmentSlot::Mask => "Mask",
            EquipmentSlot::Flippers => "Flippers",
            EquipmentSlot::Light => "Light",
        }
    }
}

/// The crafting recipe of a piece of equipment: resources with their counts.
/// Flippers and masks cost the same at every tier.
pub open spec fn spec_materials(slot: EquipmentSlot, tier: EquipmentTier) -> Seq<(ResourceType, u32)> {
    match (slot, tier) {
        (EquipmentSlot::Suit, EquipmentTier::Basic) =>
            seq![(ResourceType::Kelp, 5u32), (ResourceType::Shell, 3u32)],
        (EquipmentSlot::Suit, EquipmentTier::Standard) =>
            seq![(ResourceType::IronOre, 5u32), (ResourceType::Copper, 3u32), (ResourceType::Shell, 2u32)],
        (EquipmentSlot::Suit, EquipmentTier::Advanced) =>
            seq![(ResourceType::Crystal, 3u32), (ResourceType::Abyssalite, 2u32), (ResourceType::IronOre, 5u32)],
        (EquipmentSlot::Suit, EquipmentTier::Endgame) =>
            seq![(ResourceType::PressureGem, 2u32), (ResourceType::AncientArtifact, 1u32), (ResourceType::Abyssalite, 5u32)],
        (EquipmentSlot::Tank, EquipmentTier::Basic) =>
            seq![(ResourceType::Shell, 4u32), (ResourceType::Driftwood, 2u32)],
        (EquipmentSlot::Tank, EquipmentTier::Standard) =>
            seq![(ResourceType::IronOre, 3u32), (ResourceType::Copper, 2u32)],
        (EquipmentSlot::Tank, EquipmentTier::Advanced) =>
            seq![(ResourceType::Crystal, 2u32), (ResourceType::IronOre, 3u32)],
        (EquipmentSlot::Tank, EquipmentTier::Endgame) =>
            seq![(ResourceType::PressureGem, 1u32), (ResourceType::Abyssalite, 3u32)],
        (EquipmentSlot::Flippers, _) =>
            seq![(ResourceType::Kelp, 3u32), (ResourceType::Driftwood, 1u32)],
        (EquipmentSlot::Mask, _) =>
            seq![(ResourceType::Shell, 2u32), (ResourceType::Coral, 1u32)],
        (EquipmentSlot::Light, EquipmentTier::Basic) =>
            seq![(ResourceType::Driftwood, 2u32), (ResourceType::BioluminescentOrgan, 1u32)],
        (EquipmentSlot::Light, EquipmentTier::Standard) =>
            seq![(ResourceType::Copper, 2u32), (ResourceType::BioluminescentOrgan, 2u32)],
        (EquipmentSlot::Light, EquipmentTier::Advanced) =>
            seq![(ResourceType::Crystal, 1u32), (ResourceType::BioluminescentOrgan, 3u32)],
        (EquipmentSlot::Light, EquipmentTier::Endgame) =>
            seq![(ResourceType::PressureGem, 1u32), (ResourceType::BioluminescentOrgan, 2u32)],
    }
}

/// Crafting materials required for the equipment piece in `slot` at `tier`.
pub fn crafting_materials(slot: EquipmentSlot, tier: EquipmentTier) -> (r: Vec<(ResourceType, u32)>)
    ensures
        r@ == spec_materials(slot, tier),
{
    match (slot, tier) {
        (EquipmentSlot::Suit, EquipmentTier::Basic) =>
            vec![(ResourceType::Kelp, 5), (ResourceType::Shell, 3)],
        (EquipmentSlot::Suit, EquipmentTier::Standard) =>
            vec![(ResourceType::IronOre, 5), (ResourceType::Copper, 3), (ResourceType::Shell, 2)],
        (EquipmentSlot::Suit, EquipmentTier::Advanced) =>
            vec![(ResourceType::Crystal, 3), (ResourceType::Abyssalite, 2), (ResourceType::IronOre, 5)],
        (EquipmentSlot::Suit, EquipmentTier::Endgame) =>
            vec![(ResourceType::PressureGem, 2), (ResourceType::AncientArtifact, 1), (ResourceType::Abyssalite, 5)],
        (EquipmentSlot::Tank, EquipmentTier::Basic) =>
            vec![(ResourceType::Shell, 4), (ResourceType::Driftwood, 2)],
        (EquipmentSlot::Tank, EquipmentTier::Standard) =>
            vec![(ResourceType::IronOre, 3), (ResourceType::Copper, 2)],
        (EquipmentSlot::Tank, EquipmentTier::Advanced) =>
            vec![(ResourceType::Crystal, 2), (ResourceType::IronOre, 3)],
        (EquipmentSlot::Tank, EquipmentTier::Endgame) =>
            vec![(ResourceType::PressureGem, 1), (ResourceType::Abyssalite, 3)],
        (EquipmentSlot::Flippers, _) =>
            vec![(ResourceType::Kelp, 3), (ResourceType::Driftwood, 1)],
        (EquipmentSlot::Mask, _) =>
            vec![(ResourceType::Shell, 2), (ResourceType::Coral, 1)],
        (EquipmentSlot::Light, EquipmentTier::Basic) =>
            vec![(ResourceType::Driftwood, 2), (ResourceType::BioluminescentOrgan, 1)],
        (EquipmentSlot::Light, EquipmentTier::Standard) =>
            vec![(ResourceType::Copper, 2), (ResourceType::BioluminescentOrgan, 2)],
        (EquipmentSlot::Light, EquipmentTier::Advanced) =>
            vec![(ResourceType::Crystal, 1), (ResourceType::BioluminescentOrgan, 3)],
        (EquipmentSlot::Light, EquipmentTier::Endgame) =>
            vec![(ResourceType::PressureGem, 1), (ResourceType::BioluminescentOrgan, 2)],
    }
}

/// The recipe of every piece of equipment, slot by slot and tier by tier.
/// Suits, tanks and lights move from shallow materials (kelp, shell, driftwood)
/// through metals and crystal to pressure gems at the endgame; flippers and masks
/// cost the same at every tier.
pub proof fn lemma_recipe_table()
    ensures
        spec_materials(EquipmentSlot::Suit, EquipmentTier::Basic) == seq![(ResourceType::Kelp, 5u32), (ResourceType::Shell, 3u32)],
        spec_materials(EquipmentSlot::Suit, EquipmentTier::Standard) == seq![(ResourceType::IronOre, 5u32), (ResourceType::Copper, 3u32), (ResourceType::Shell, 2u32)],
        spec_materials(EquipmentSlot::Suit, EquipmentTier::Advanced) == seq![(ResourceType::Crystal, 3u32), (ResourceType::Abyssalite, 2u32), (ResourceType::IronOre, 5u32)],
        spec_materials(EquipmentSlot::Suit, EquipmentTier::Endgame) == seq![(ResourceType::PressureGem, 2u32), (ResourceType::AncientArtifact, 1u32), (ResourceType::Abyssalite, 5u32)],
        spec_materials(EquipmentSlot::Tank, EquipmentTier::Basic) == seq![(ResourceType::Shell, 4u32), (ResourceType::Driftwood, 2u32)],
        spec_materials(EquipmentSlot::Tank, EquipmentTier::Standard) == seq![(ResourceType::IronOre, 3u32), (ResourceType::Copper, 2u32)],
        spec_materials(EquipmentSlot::Tank, EquipmentTier::Advanced) == seq![(ResourceType::Crystal, 2u32), (ResourceType::IronOre, 3u32)],
        spec_materials(EquipmentSlot::Tank, EquipmentTier::Endgame) == seq![(ResourceType::PressureGem, 1u32), (ResourceType::Abyssalite, 3u32)],
        spec_materials(EquipmentSlot::Flippers, EquipmentTier::Basic) == seq![(ResourceType::Kelp, 3u32), (ResourceType::Driftwood, 1u32)],
        spec_materials(EquipmentSlot::Flippers, EquipmentTier::Standard) == seq![(ResourceType::Kelp, 3u32), (ResourceType::Driftwood, 1u32)],
        spec_materials(EquipmentSlot::Flippers, EquipmentTier::Advanced) == seq![(ResourceType::Kelp, 3u32), (ResourceType::Driftwood, 1u32)],
        spec_materials(EquipmentSlot::Flippers, EquipmentTier::Endgame) == seq![(ResourceType::Kelp, 3u32), (ResourceType::Driftwood, 1u32)],
        spec_materials(EquipmentSlot::Mask, EquipmentTier::Basic) == seq![(ResourceType::Shell, 2u32), (ResourceType::Coral, 1u32)],
        spec_materials(EquipmentSlot::Mask, EquipmentTier::Standard) == seq![(ResourceType::Shell, 2u32), (ResourceType::Coral, 1u32)],
        spec_materials(EquipmentSlot::Mask, EquipmentTier::Advanced) == seq![(ResourceType::Shell, 2u32), (ResourceType::Coral, 1u32)],
        spec_materials(EquipmentSlot::Mask, EquipmentTier::Endgame) == seq![(ResourceType::Shell, 2u32), (ResourceType::Coral, 1u32)],
        spec_materials(EquipmentSlot::Light, EquipmentTier::Basic) == seq![(ResourceType::Driftwood, 2u32), (ResourceType::BioluminescentOrgan, 1u32)],
        spec_materials(EquipmentSlot::Light, EquipmentTier::Standard) == seq![(ResourceType::Copper, 2u32), (ResourceType::BioluminescentOrgan, 2u32)],
        spec_materials(EquipmentSlot::Light, EquipmentTier::Advanced) == seq![(ResourceType::Crystal, 1u32), (ResourceType::BioluminescentOrgan, 3u32)],
        spec_materials(EquipmentSlot::Light, EquipmentTier::Endgame) == seq![(ResourceType::PressureGem, 1u32), (ResourceType::BioluminescentOrgan, 2u32)],
{
}

/// Every piece of equipment, in every slot and at every tier, has a recipe of at
/// least one ingredient, and every ingredient count is positive.
pub proof fn lemma_every_piece_craftable(slot: EquipmentSlot, tier: EquipmentTier)
    ensures
        spec_materials(slot, tier).len() > 0,
        forall|i: int| 0 <= i < spec_materials(slot, tier).len()
            ==> #[trigger] spec_materials(slot, tier)[i].1 > 0,
{
}

/// Tier levels run 1 to 4 and strictly increase from Basic to Endgame, so
/// distinct tiers have distinct levels.
pub proof fn lemma_tier_levels_increase(a: EquipmentTier, b: EquipmentTier)
    ensures
        1 <= a.spec_level() <= 4,
        a.spec_level() == b.spec_level() <==> a == b,
        EquipmentTier::Basic.spec_level() < EquipmentTier::Standard.spec_level(),
        EquipmentTier::Standard.spec_level() < EquipmentTier::Advanced.spec_level(),
        EquipmentTier::Advanced.spec_level() < EquipmentTier::Endgame.spec_level(),
{
}

/// The display name of each equipment slot.
pub proof fn lemma_equipment_slot_table()
    ensures
        EquipmentSlot::Suit.spec_name() == "Suit"@,
        EquipmentSlot::Tank.spec_name() == "Tank"@,
        EquipmentSlot::Mask.spec_name() == "Mask"@,
        EquipmentSlot::Flippers.spec_name() == "Flippers"@,
        EquipmentSlot::Light.spec_name() == "Light"@,
{
}

} // verus!
