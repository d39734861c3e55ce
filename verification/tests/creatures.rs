use abyss::bioluminescence::{HarvestState, OrganismType};
use abyss::creatures::hostile::{loot, HostileType};
use abyss::creatures::passive::PassiveType;
use abyss::world::{all_resources, Rarity, ResourceCategory, ResourceType};

#[test]
fn test_pack_creatures() {
    assert!(HostileType::SeaSnake.is_pack());
    assert!(HostileType::PressureCrawler.is_pack());
    assert!(!HostileType::Barracuda.is_pack());
}

#[test]
fn test_warden_drops_artifact() {
    let drops = HostileType::TrenchWarden.drops();
    assert!(drops.contains(&ResourceType::AncientArtifact));
}

#[test]
fn test_loot_on_death() {
    assert!(loot(HostileType::GiantSquid, true).is_empty());
    assert!(!loot(HostileType::GiantSquid, false).is_empty());
}

#[test]
fn hostile_names_boss_aggression() {
    assert_eq!(HostileType::AbyssalLeviathan.name(), "Abyssal Leviathan");
    assert!(HostileType::TrenchWarden.is_boss());
    assert!(!HostileType::SeaSnake.is_boss());
    assert!(HostileType::TrenchWarden.starts_aggressive());
    assert!(HostileType::SeaSnake.starts_aggressive());
    assert!(!HostileType::GiantSquid.starts_aggressive());
    assert_eq!(loot(HostileType::Barracuda, false), vec![ResourceType::Fish, ResourceType::Shell]);
}

#[test]
fn test_jellyfish_bioluminescent() {
    assert!(PassiveType::Jellyfish.is_bioluminescent());
    assert!(!PassiveType::FishSchool.is_bioluminescent());
}

#[test]
fn test_catchable() {
    assert!(PassiveType::FishSchool.is_catchable());
    assert!(PassiveType::SeaTurtle.is_catchable());
    assert!(!PassiveType::Jellyfish.is_catchable());
}

#[test]
fn test_harvest_drops() {
    let fish_drops = PassiveType::FishSchool.harvest_drops();
    assert!(fish_drops.contains(&ResourceType::Fish));

    let jelly_drops = PassiveType::Jellyfish.harvest_drops();
    assert!(jelly_drops.contains(&ResourceType::BioluminescentOrgan));
}

#[test]
fn passive_school_sizes_and_names() {
    assert_eq!(PassiveType::FishSchool.school_size(), 8);
    assert_eq!(PassiveType::Jellyfish.school_size(), 5);
    assert_eq!(PassiveType::Whale.school_size(), 1);
    assert!(PassiveType::Whale.harvest_drops().is_empty());
    assert_eq!(PassiveType::SeaTurtle.name(), "Sea Turtle");
}

#[test]
fn test_harvest() {
    let mut org = HarvestState::new();
    let drop = org.harvest(OrganismType::DeepShroom);
    assert!(drop.is_some());
    assert!(org.harvested);
}

#[test]
fn test_double_harvest() {
    let mut org = HarvestState::new();
    org.harvest(OrganismType::GlowAlgae);
    let second = org.harvest(OrganismType::GlowAlgae);
    assert!(second.is_none());
}

#[test]
fn organism_names_and_flicker() {
    assert_eq!(OrganismType::GlowAlgae.name(), "Glow Algae");
    assert_eq!(OrganismType::PulseWorm.name(), "Pulse Worm");
    assert!(OrganismType::LightOrb.flickers());
    assert!(OrganismType::PulseWorm.flickers());
    assert!(!OrganismType::DeepShroom.flickers());
    assert_eq!(OrganismType::LightOrb.harvest_drop(), ResourceType::BioluminescentOrgan);
}

#[test]
fn resource_tables() {
    assert_eq!(ResourceType::Kelp.category(), ResourceCategory::Surface);
    assert_eq!(ResourceType::Copper.category(), ResourceCategory::Mid);
    assert_eq!(ResourceType::PressureGem.category(), ResourceCategory::Deep);
    assert_eq!(ResourceType::Fish.category(), ResourceCategory::Living);
    assert_eq!(ResourceType::Kelp.rarity(), Rarity::Common);
    assert_eq!(ResourceType::Salvage.rarity(), Rarity::Uncommon);
    assert_eq!(ResourceType::DeepWormHide.rarity(), Rarity::Rare);
    assert_eq!(ResourceType::AncientArtifact.rarity(), Rarity::Legendary);
    assert_eq!(ResourceType::IronOre.name(), "Iron Ore");
    assert_eq!(ResourceType::BioluminescentOrgan.name(), "Bioluminescent Organ");
    assert_eq!(ResourceCategory::Mid.name(), "Mid-Depth");
    let all = all_resources();
    assert_eq!(all.len(), 16);
    assert_eq!(all[0], ResourceType::Kelp);
    assert_eq!(all[15], ResourceType::BioluminescentOrgan);
}
