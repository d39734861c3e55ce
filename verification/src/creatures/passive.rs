//! Passive underwater wildlife: fish schools, sea turtles, jellyfish, whales.

use vstd::prelude::*;
use crate::world::ResourceType;

verus! {

/// Passive creature type.
#[derive(Debug, Clone, Copy, PartialEq, Eq, Hash, Structural)]
pub enum PassiveType {
    /// Schooling fish, catchable.
    FishSchool,
    /// Sea turtles, drop shells.
    SeaTurtle,
    /// Bioluminescent jellyfish, contact damage.
    Jellyfish,
    /// Rare surface whales.
    Whale,
}

impl PassiveType {
    /// The display name of a creature.
    pub open spec fn spec_name(self) -> Seq<char> {
        match self {
            PassiveType::FishSchool => "Fish School"@,
            PassiveType::SeaTurtle => "Sea Turtle"@,
            PassiveType::Jellyfish => "Jellyfish"@,
            PassiveType::Whale => "Whale"@,
        }
    }

    /// Only jellyfish glow.
    pub open spec fn spec_is_bioluminescent(self) -> bool {
        self == PassiveType::Jellyfish
    }

    /// Fish schools and sea turtles can be caught.
    pub open spec fn spec_is_catchable(self) -> bool {
        self == PassiveType::FishSchool || self == PassiveType::SeaTurtle
    }

    /// Resources gained from catching or harvesting, in order.
    pub open spec fn spec_harvest_drops(self) -> Seq<ResourceType> {
        match self {
            PassiveType::FishSchool => seq![ResourceType::Fish],
            PassiveType::SeaTurtle => seq![ResourceType::Shell],
            PassiveType::Jellyfish => seq![ResourceType::JellyfishCells, ResourceType::BioluminescentOrgan],
            PassiveType::Whale => Seq::empty(),
        }
    }

    /// Number of individuals in a group.
    pub open spec fn spec_school_size(self) -> usize {
        match self {
            PassiveType::FishSchool => 8,
            PassiveType::SeaTurtle => 1,
            PassiveType::Jellyfish => 5,
            PassiveType::Whale => 1,
        }
    }

    /// Human-readable name.
    pub fn name(&self) -> (r: &'static str)
        ensures
            r@ == self.spec_name(),
    {
        match self {
            PassiveType::FishSchool => "Fish School",
            PassiveType::SeaTurtle => "Sea Turtle",
            PassiveType::Jellyfish => "Jellyfish",
            PassiveType::Whale => "Whale",
        }
    }

    /// Whether this creature is bioluminescent.
    pub fn is_bioluminescent(&self) -> (r: bool)
        ensures
            r == self.spec_is_bioluminescent(),
    {
        *self == PassiveType::Jellyfish
    }

    /// Whether this creature is catchable.
    pub fn is_catchable(&self) -> (r: bool)
        ensures
            r == self.spec_is_catchable(),
    {
        match self {
            PassiveType::FishSchool => true,
            PassiveType::SeaTurtle => true,
            _ => false,
        }
    }

    /// Resources obtained from catching/harvesting.
    pub fn harvest_drops(&self) -> (r: Vec<ResourceType>)
        ensures
            r@ == self.spec_harvest_drops(),
    {
        match self {
            PassiveType::FishSchool => vec![ResourceType::Fish],
            PassiveType::SeaTurtle => vec![ResourceType::Shell],
            PassiveType::Jellyfish => vec![ResourceType::JellyfishCells, ResourceType::BioluminescentOrgan],
            PassiveType::Whale => Vec::new(),
        }
    }

    /// School size (number of individuals in a group).
    pub fn school_size(&self) -> (r: usize)
        ensures
            r == self.spec_school_size(),
    {
        match self {
            PassiveType::FishSchool => 8,
            PassiveType::SeaTurtle => 1,
            PassiveType::Jellyfish => 5,
            PassiveType::Whale => 1,
        }
    }
}

/// A passive creature yields a bioluminescent organ exactly when it glows, a
/// group has at least one member, and every catchable creature yields something.
pub proof fn lemma_passive_harvest(p: PassiveType)
    ensures
        p.spec_harvest_drops().contains(ResourceType::BioluminescentOrgan)
            <==> p.spec_is_bioluminescent(),
        p.spec_school_size() >= 1,
        p.spec_is_catchable() ==> p.spec_harvest_drops().len() > 0,
{
    let d = p.spec_harvest_drops();
    if p == PassiveType::Jellyfish {
        assert(d[1] == ResourceType::BioluminescentOrgan);
    } else {
        assert forall|i: int| 0 <= i < d.len() implies d[i] != ResourceType::BioluminescentOrgan by {}
    }
}

/// Each passive creature's name, whether it glows, whether it can be caught, what
/// harvesting it yields and how many swim together.
pub proof fn lemma_passive_type_table()
    ensures
        PassiveType::FishSchool.spec_name() == "Fish School"@,
        PassiveType::SeaTurtle.spec_name() == "Sea Turtle"@,
        PassiveType::Jellyfish.spec_name() == "Jellyfish"@,
        PassiveType::Whale.spec_name() == "Whale"@,
        !PassiveType::FishSchool.spec_is_bioluminescent(),
        !PassiveType::SeaTurtle.spec_is_bioluminescent(),
        PassiveType::Jellyfish.spec_is_bioluminescent(),
        !PassiveType::Whale.spec_is_bioluminescent(),
        PassiveType::FishSchool.spec_is_catchable(),
        PassiveType::SeaTurtle.spec_is_catchable(),
        !PassiveType::Jellyfish.spec_is_catchable(),
        !PassiveType::Whale.spec_is_catchable(),
        PassiveType::FishSchool.spec_harvest_drops() == seq![ResourceType::Fish],
        PassiveType::SeaTurtle.spec_harvest_drops() == seq![ResourceType::Shell],
        PassiveType::Jellyfish.spec_harvest_drops() == seq![ResourceType::JellyfishCells, ResourceType::BioluminescentOrgan],
        PassiveType::Whale.spec_harvest_drops() == Seq::<ResourceType>::empty(),
        PassiveType::FishSchool.spec_school_size() == 8,
        PassiveType::SeaTurtle.spec_school_size() == 1,
        PassiveType::Jellyfish.spec_school_size() == 5,
        PassiveType::Whale.spec_school_size() == 1,
{
}

} // verus!
