//! Hostile underwater creatures, from shallow sea snakes to the hadal Trench Warden.

use vstd::prelude::*;
use crate::world::ResourceType;

verus! {

/// Hostile creature type.
#[derive(Debug, Clone, Copy, PartialEq, Eq, Hash, Structural)]
pub enum HostileType {
    /// Shallow pack predator.
    SeaSnake,
    /// Shallow/mid ambush predator.
    Barracuda,
    /// Mid-depth with bioluminescent lure.
    AnglerFish,
    /// Mid-depth territorial.
    GiantSquid,
    /// Deep slow massive.
    AbyssalLeviathan,
    /// Deep wall-climbing pack.
    PressureCrawler,
    /// Hadal boss.
    TrenchWarden,
}

impl HostileType {
    /// The display name of a creature.
    pub open spec fn spec_name(self) -> Seq<char> {
        match self {
            HostileType::SeaSnake => "Sea Snake"@,
            HostileType::Barracuda => "Barracuda"@,
            HostileType::AnglerFish => "Angler Fish"@,
            HostileType::GiantSquid => "Giant Squid"@,
            HostileType::AbyssalLeviathan => "Abyssal Leviathan"@,
            HostileType::PressureCrawler => "Pressure Crawler"@,
            HostileType::TrenchWarden => "Trench Warden"@,
        }
    }

    /// Pack hunters: sea snakes and pressure crawlers.
    pub open spec fn spec_is_pack(self) -> bool {
        self == HostileType::SeaSnake || self == HostileType::PressureCrawler
    }

    /// The single boss: the Trench Warden.
    pub open spec fn spec_is_boss(self) -> bool {
        self == HostileType::TrenchWarden
    }

    /// Resources a creature drops when defeated, in drop order.
    pub open spec fn spec_drops(self) -> Seq<ResourceType> {
        match self {
            HostileType::SeaSnake => seq![ResourceType::Fish],
            HostileType::Barracuda => seq![ResourceType::Fish, ResourceType::Shell],
            HostileType::AnglerFish => seq![ResourceType::BioluminescentOrgan, ResourceType::Fish],
            HostileType::GiantSquid => seq![ResourceType::JellyfishCells, ResourceType::Copper],
            HostileType::AbyssalLeviathan => seq![ResourceType::Abyssalite, ResourceType::Crystal],
            HostileType::PressureCrawler => seq![ResourceType::IronOre, ResourceType::DeepWormHide],
            HostileType::TrenchWarden => seq![
                ResourceType::AncientArtifact,
                ResourceType::PressureGem,
                ResourceType::Abyssalite,
            ],
        }
    }

    /// Human-readable name.
    pub fn name(&self) -> (r: &'static str)
        ensures
            r@ == self.spec_name(),
    {
        match self {
            HostileType::SeaSnake => "Sea Snake",
            HostileType::Barracuda => "Barracuda",
            HostileType::AnglerFish => "Angler Fish",
            HostileType::GiantSquid => "Giant Squid",
            HostileType::AbyssalLeviathan => "Abyssal Leviathan",
            HostileType::PressureCrawler => "Pressure Crawler",
            HostileType::TrenchWarden => "Trench Warden",
        }
    }

    /// Whether this is a pack creature.
    pub fn is_pack(&self) -> (r: bool)
        ensures
            r == self.spec_is_pack(),
    {
        match self {
            HostileType::SeaSnake | HostileType::PressureCrawler => true,
            _ => false,
        }
    }

    /// Whether this is a boss.
    pub fn is_boss(&self) -> (r: bool)
        ensures
            r == self.spec_is_boss(),
    {
        *self == HostileType::TrenchWarden
    }

    /// Resources dropped on defeat.
    pub fn drops(&self) -> (r: Vec<ResourceType>)
        ensures
            r@ == self.spec_drops(),
    {
        match self {
            HostileType::SeaSnake => vec![ResourceType::Fish],
            HostileType::Barracuda => vec![ResourceType::Fish, ResourceType::Shell],
            HostileType::AnglerFish => vec![ResourceType::BioluminescentOrgan, ResourceType::Fish],
            HostileType::GiantSquid => vec![ResourceType::JellyfishCells, ResourceType::Copper],
            HostileType::AbyssalLeviathan => vec![ResourceType::Abyssalite, ResourceType::Crystal],
            HostileType::PressureCrawler => vec![ResourceType::IronOre, ResourceType::DeepWormHide],
            HostileType::TrenchWarden => vec![
                ResourceType::AncientArtifact,
                ResourceType::PressureGem,
                ResourceType::Abyssalite,
            ],
        }
    }

    /// Whether a freshly spawned creature of this type starts aggressive:
    /// pack hunters and the boss do.
    pub fn starts_aggressive(&self) -> (r: bool)
        ensures
            r == (self.spec_is_pack() || self.spec_is_boss()),
    {
        self.is_pack() || self.is_boss()
    }
}

/// The loot a creature leaves: nothing while it lives, its drops once dead.
pub open spec fn spec_loot(creature: HostileType, alive: bool) -> Seq<ResourceType> {
    if alive { Seq::empty() } else { creature.spec_drops() }
}

/// Loot of a creature of the given type, given whether it is still alive.
pub fn loot(creature: HostileType, alive: bool) -> (r: Vec<ResourceType>)
    ensures
        r@ == spec_loot(creature, alive),
{
    if alive {
        Vec::new()
    } else {
        creature.drops()
    }
}

/// Every hostile creature drops something when killed, the boss is never a pack
/// hunter, and the Trench Warden is the one that drops an ancient artifact.
pub proof fn lemma_hostile_drops(h: HostileType)
    ensures
        h.spec_drops().len() > 0,
        !(h.spec_is_boss() && h.spec_is_pack()),
        spec_loot(h, false).len() > 0,
        spec_loot(h, true).len() == 0,
        h.spec_drops().contains(ResourceType::AncientArtifact) <==> h == HostileType::TrenchWarden,
{
    let d = h.spec_drops();
    if h == HostileType::TrenchWarden {
        assert(d[0] == ResourceType::AncientArtifact);
    } else {
        assert forall|i: int| 0 <= i < d.len() implies d[i] != ResourceType::AncientArtifact by {}
    }
}

/// Each hostile creature's name, whether it hunts in a pack, whether it is the boss,
/// and what it drops, creature by creature.
pub proof fn lemma_hostile_type_table()
    ensures
        HostileType::SeaSnake.spec_name() == "Sea Snake"@,
        HostileType::Barracuda.spec_name() == "Barracuda"@,
        HostileType::AnglerFish.spec_name() == "Angler Fish"@,
        HostileType::GiantSquid.spec_name() == "Giant Squid"@,
        HostileType::AbyssalLeviathan.spec_name() == "Abyssal Leviathan"@,
        HostileType::PressureCrawler.spec_name() == "Pressure Crawler"@,
        HostileType::TrenchWarden.spec_name() == "Trench Warden"@,
        HostileType::SeaSnake.spec_is_pack(),
        !HostileType::Barracuda.spec_is_pack(),
        !HostileType::AnglerFish.spec_is_pack(),
        !HostileType::GiantSquid.spec_is_pack(),
        !HostileType::AbyssalLeviathan.spec_is_pack(),
        HostileType::PressureCrawler.spec_is_pack(),
        !HostileType::TrenchWarden.spec_is_pack(),
        !HostileType::SeaSnake.spec_is_boss(),
        !HostileType::Barracuda.spec_is_boss(),
        !HostileType::AnglerFish.spec_is_boss(),
        !HostileType::GiantSquid.spec_is_boss(),
        !HostileType::AbyssalLeviathan.spec_is_boss(),
        !HostileType::PressureCrawler.spec_is_boss(),
        HostileType::TrenchWarden.spec_is_boss(),
        HostileType::SeaSnake.spec_drops() == seq![ResourceType::Fish],
        HostileType::Barracuda.spec_drops() == seq![ResourceType::Fish, ResourceType::Shell],
        HostileType::AnglerFish.spec_drops() == seq![ResourceType::BioluminescentOrgan, ResourceType::Fish],
        HostileType::GiantSquid.spec_drops() == seq![ResourceType::JellyfishCells, ResourceType::Copper],
        HostileType::AbyssalLeviathan.spec_drops() == seq![ResourceType::Abyssalite, ResourceType::Crystal],
        HostileType::PressureCrawler.spec_drops() == seq![ResourceType::IronOre, ResourceType::DeepWormHide],
        HostileType::TrenchWarden.spec_drops() == seq![ResourceType::AncientArtifact, ResourceType::PressureGem, ResourceType::Abyssalite],
{
}

} // verus!
