use abyss::crafting::ancient_altar::{AncientAltar, AncientRecipe};
use abyss::crafting::deep_forge::DeepStation;
use abyss::crafting::equipment::{crafting_materials, EquipmentSlot, EquipmentTier};
use abyss::crafting::weapons::WeaponType;
use abyss::world::ResourceType;

#[test]
fn test_ancient_altar_new() {
    let altar = AncientAltar::new();
    assert!(!altar.is_active());
    assert!((altar.charge() as f32 - 0.0).abs() < f32::EPSILON);
    assert_eq!(altar.crafts_completed(), 0);
}

#[test]
fn test_ancient_altar_insert_artifact() {
    let mut altar = AncientAltar::new();
    let gain = altar.insert_artifact(ResourceType::AncientArtifact);
    assert!((gain as f32 - 50.0).abs() < f32::EPSILON);
    assert!(altar.is_active());
}

#[test]
fn test_ancient_altar_insert_pressure_gem() {
    let mut altar = AncientAltar::new();
    let gain = altar.insert_artifact(ResourceType::PressureGem);
    assert!((gain as f32 - 25.0).abs() < f32::EPSILON);
    assert!(!altar.is_active()); // 25 < 50 needed
}

#[test]
fn test_ancient_altar_insert_abyssalite() {
    let mut altar = AncientAltar::new();
    let gain = altar.insert_artifact(ResourceType::Abyssalite);
    assert!((gain as f32 - 10.0).abs() < f32::EPSILON);
}

#[test]
fn test_ancient_altar_insert_non_artifact() {
    let mut altar = AncientAltar::new();
    let gain = altar.insert_artifact(ResourceType::Kelp);
    assert!((gain as f32 - 0.0).abs() < f32::EPSILON);
}

#[test]
fn test_ancient_altar_charge_cap() {
    let mut altar = AncientAltar::new();
    altar.insert_artifact(ResourceType::AncientArtifact);
    altar.insert_artifact(ResourceType::AncientArtifact);
    altar.insert_artifact(ResourceType::AncientArtifact);
    assert!((altar.charge() as f32 - AncientAltar::MAX_CHARGE as f32).abs() < f32::EPSILON);
}

#[test]
fn test_ancient_altar_charge_percent() {
    let mut altar = AncientAltar::new();
    altar.insert_artifact(ResourceType::AncientArtifact);
    assert!((altar.charge_percent() as f32 - 50.0).abs() < f32::EPSILON);
}

#[test]
fn test_ancient_altar_can_craft() {
    let mut altar = AncientAltar::new();
    assert!(!altar.can_craft());
    altar.insert_artifact(ResourceType::AncientArtifact);
    assert!(altar.can_craft());
}

#[test]
fn test_ancient_altar_consume_charge() {
    let mut altar = AncientAltar::new();
    altar.insert_artifact(ResourceType::AncientArtifact);
    assert!(altar.consume_charge());
    assert_eq!(altar.crafts_completed(), 1);
}

#[test]
fn test_ancient_altar_consume_deactivates() {
    let mut altar = AncientAltar::new();
    altar.insert_artifact(ResourceType::AncientArtifact); // 50 charge
    altar.consume_charge(); // costs 50
    assert!(!altar.is_active());
}

#[test]
fn test_ancient_altar_consume_insufficient() {
    let mut altar = AncientAltar::new();
    assert!(!altar.consume_charge());
}

#[test]
fn test_ancient_recipes_names() {
    assert_eq!(AncientRecipe::PressureVessel.name(), "Pressure Vessel");
    assert_eq!(AncientRecipe::ThermalSuit.name(), "Thermal Suit");
    assert_eq!(AncientRecipe::SonarBurst.name(), "Sonar Burst");
    assert_eq!(AncientRecipe::PressureWave.name(), "Pressure Wave");
    assert_eq!(AncientRecipe::LightNova.name(), "Light Nova");
}

#[test]
fn test_ancient_recipes_ingredients() {
    let ingredients = AncientRecipe::PressureVessel.ingredients();
    assert_eq!(ingredients.len(), 3);
}

#[test]
fn test_ancient_recipes_tier() {
    assert_eq!(AncientRecipe::PressureVessel.tier(), EquipmentTier::Endgame);
}

#[test]
fn test_available_recipes() {
    let recipes = AncientAltar::available_recipes();
    assert_eq!(recipes.len(), 5);
}

#[test]
fn altar_gem_then_gem_activates_and_two_crafts_drain() {
    let mut altar = AncientAltar::new();
    altar.insert_artifact(ResourceType::PressureGem);
    assert!(!altar.can_craft());
    altar.insert_artifact(ResourceType::PressureGem);
    assert_eq!(altar.charge(), 50);
    assert!(altar.is_active());
    altar.insert_artifact(ResourceType::AncientArtifact);
    assert_eq!(altar.charge(), 100);
    assert!(altar.consume_charge());
    assert!(altar.is_active());
    assert_eq!(altar.charge(), 50);
    assert!(altar.consume_charge());
    assert!(!altar.is_active());
    assert_eq!(altar.charge(), 0);
    assert!(!altar.consume_charge());
    assert_eq!(altar.crafts_completed(), 2);
}

#[test]
fn altar_abyssalite_to_cap() {
    let mut altar = AncientAltar::default();
    for _ in 0..12 {
        assert_eq!(altar.insert_artifact(ResourceType::Abyssalite), 10);
    }
    assert_eq!(altar.charge(), 100);
    assert_eq!(altar.charge_percent(), 100);
    let copy = altar.clone();
    assert_eq!(copy.charge(), 100);
    assert!(copy.is_active());
}

#[test]
fn altar_recipe_ingredients_exact() {
    assert_eq!(
        AncientRecipe::LightNova.ingredients(),
        vec![(ResourceType::AncientArtifact, 3), (ResourceType::PressureGem, 2)]
    );
    assert_eq!(
        AncientRecipe::ThermalSuit.ingredients(),
        vec![(ResourceType::Abyssalite, 8), (ResourceType::AncientArtifact, 1)]
    );
    assert_eq!(
        AncientAltar::available_recipes(),
        vec![
            AncientRecipe::PressureVessel,
            AncientRecipe::ThermalSuit,
            AncientRecipe::SonarBurst,
            AncientRecipe::PressureWave,
            AncientRecipe::LightNova,
        ]
    );
}

#[test]
fn test_proximity_workbench() {
    assert!(!DeepStation::Workbench.requires_proximity());
}

#[test]
fn test_proximity_deep_forge() {
    assert!(DeepStation::DeepForge.requires_proximity());
    assert_eq!(DeepStation::DeepForge.required_feature(), Some("Thermal Vent"));
}

#[test]
fn station_names_features_tiers() {
    assert_eq!(DeepStation::Workbench.name(), "Workbench");
    assert_eq!(DeepStation::DeepForge.name(), "Deep Forge");
    assert_eq!(DeepStation::AncientAltar.name(), "Ancient Altar");
    assert_eq!(DeepStation::Workbench.required_feature(), None);
    assert_eq!(DeepStation::AncientAltar.required_feature(), Some("Ancient Ruins"));
    assert!(DeepStation::AncientAltar.requires_proximity());
    assert_eq!(DeepStation::Workbench.max_tier(), 2);
    assert_eq!(DeepStation::DeepForge.max_tier(), 3);
    assert_eq!(DeepStation::AncientAltar.max_tier(), 4);
}

#[test]
fn test_crafting_materials_exist() {
    for slot in [EquipmentSlot::Suit, EquipmentSlot::Tank, EquipmentSlot::Flippers, EquipmentSlot::Mask, EquipmentSlot::Light] {
        for tier in [EquipmentTier::Basic, EquipmentTier::Standard, EquipmentTier::Advanced, EquipmentTier::Endgame] {
            assert!(!crafting_materials(slot, tier).is_empty(), "No materials for {:?} {:?}", slot, tier);
        }
    }
}

#[test]
fn materials_exact_values() {
    assert_eq!(
        crafting_materials(EquipmentSlot::Suit, EquipmentTier::Standard),
        vec![(ResourceType::IronOre, 5), (ResourceType::Copper, 3), (ResourceType::Shell, 2)]
    );
    assert_eq!(
        crafting_materials(EquipmentSlot::Mask, EquipmentTier::Endgame),
        vec![(ResourceType::Shell, 2), (ResourceType::Coral, 1)]
    );
    assert_eq!(
        crafting_materials(EquipmentSlot::Light, EquipmentTier::Advanced),
        vec![(ResourceType::Crystal, 1), (ResourceType::BioluminescentOrgan, 3)]
    );
}

#[test]
fn tier_levels_and_slot_names() {
    assert_eq!(EquipmentTier::Basic.level(), 1);
    assert_eq!(EquipmentTier::Standard.level(), 2);
    assert_eq!(EquipmentTier::Advanced.level(), 3);
    assert_eq!(EquipmentTier::Endgame.level(), 4);
    assert!(EquipmentTier::Basic < EquipmentTier::Endgame);
    assert_eq!(EquipmentSlot::Flippers.name(), "Flippers");
    assert_eq!(EquipmentSlot::Suit.name(), "Suit");
}

#[test]
fn test_endgame_weapons() {
    assert!(WeaponType::ArtifactHarpoon.is_endgame());
    assert!(WeaponType::AbyssalBlade.is_endgame());
    assert!(!WeaponType::Harpoon.is_endgame());
}

#[test]
fn weapon_flags_and_names() {
    assert!(WeaponType::Harpoon.returns_to_user());
    assert!(!WeaponType::DepthCharge.returns_to_user());
    assert!(WeaponType::DepthCharge.is_ranged());
    assert!(!WeaponType::ElectricProd.is_ranged());
    assert!(!WeaponType::AbyssalBlade.is_ranged());
    assert_eq!(WeaponType::ElectricProd.name(), "Electric Prod");
    assert_eq!(WeaponType::ArtifactHarpoon.name(), "Artifact Harpoon");
}
