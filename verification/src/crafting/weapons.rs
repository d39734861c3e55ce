//! Underwater weapons and tools: harpoon, depth charge, electric prod, artifact weapons.

use vstd::prelude::*;

verus! {

/// Weapon type.
#[derive(Debug, Clone, Copy, PartialEq, Eq, Hash, Structural)]
pub enum WeaponType {
    /// Ranged, retrievable spear. 6 damage, 16 block range.
    Harpoon,
    /// Explosive. 20 damage radius, breaks blocks, dangerous to user.
    DepthCharge,
    /// Melee. 4 damage + stun, powered by jellyfish cells.
    ElectricProd,
    /// Endgame harpoon. 15 damage, 24 range, returns instantly.
    ArtifactHarpoon,
    /// Endgame blade. 12 damage + bleed, ignores armor.
    AbyssalBlade,
}

impl WeaponType {
    /// The display name of a weapon.
    pub open spec fn spec_name(self) -> Seq<char> {
        match self {
            WeaponType::Harpoon => "Harpoon"@,
            WeaponType::DepthCharge => "Depth Charge"@,
            WeaponType::ElectricProd => "Electric Prod"@,
            WeaponType::ArtifactHarpoon => "Artifact Harpoon"@,
            WeaponType::AbyssalBlade => "Abyssal Blade"@,
        }
    }

    /// Ranged weapons: both harpoons and the thrown depth charge.
    pub open spec fn spec_is_ranged(self) -> bool {
        self == WeaponType::Harpoon || self == WeaponType::DepthCharge
            || self == WeaponType::ArtifactHarpoon
    }

    /// Endgame weapons: the artifact harpoon and the abyssal blade.
    pub open spec fn spec_is_endgame(self) -> bool {
        self == WeaponType::ArtifactHarpoon || self == WeaponType::AbyssalBlade
    }

    /// Weapons that come back after a throw: the two harpoons.
    pub open spec fn spec_returns_to_user(self) -> bool {
        self == WeaponType::Harpoon || self == WeaponType::ArtifactHarpoon
    }

    /// Human-readable name.
    pub fn name(&self) -> (r: &'static str)
        ensures
            r@ == self.spec_name(),
    {
        match self {
            WeaponType::Harpoon => "Harpoon",
            WeaponType::DepthCharge => "Depth Charge",
            WeaponType::ElectricProd => "Electric Prod",
            WeaponType::ArtifactHarpoon => "Artifact Harpoon",
            WeaponType::AbyssalBlade => "Abyssal Blade",
        }
    }

    /// Whether this weapon is ranged: the harpoons and the depth charge.
    pub fn is_ranged(&self) -> (r: bool)
        ensures
            r == self.spec_is_ranged(),
    {
        match self {
            WeaponType::Harpoon | WeaponType::DepthCharge | WeaponType::ArtifactHarpoon => true,
            _ => false,
        }
    }

    /// Whether this is an endgame weapon.
    pub fn is_endgame(&self) -> (r: bool)
        ensures
            r == self.spec_is_endgame(),
    {
        matches!(self, WeaponType::ArtifactHarpoon | WeaponType::AbyssalBlade)
    }

    /// Whether weapon returns to user after thrown.
    pub fn returns_to_user(&self) -> (r: bool)
        ensures
            r == self.spec_returns_to_user(),
    {
        matches!(self, WeaponType::Harpoon | WeaponType::ArtifactHarpoon)
    }
}

/// A weapon that returns to its user is a ranged weapon: only thrown weapons come back.
pub proof fn lemma_returning_weapons_are_ranged(w: WeaponType)
    ensures
        w.spec_returns_to_user() ==> w.spec_is_ranged(),
{
}

/// Each weapon's name, and which weapons are ranged, endgame, or come back to their user.
pub proof fn lemma_weapon_type_table()
    ensures
        WeaponType::Harpoon.spec_name() == "Harpoon"@,
        WeaponType::DepthCharge.spec_name() == "Depth Charge"@,
        WeaponType::ElectricProd.spec_name() == "Electric Prod"@,
        WeaponType::ArtifactHarpoon.spec_name() == "Artifact Harpoon"@,
        WeaponType::AbyssalBlade.spec_name() == "Abyssal Blade"@,
        WeaponType::Harpoon.spec_is_ranged(),
        WeaponType::DepthCharge.spec_is_ranged(),
        !WeaponType::ElectricProd.spec_is_ranged(),
        WeaponType::ArtifactHarpoon.spec_is_ranged(),
        !WeaponType::AbyssalBlade.spec_is_ranged(),
        !WeaponType::Harpoon.spec_is_endgame(),
        !WeaponType::DepthCharge.spec_is_endgame(),
        !WeaponType::ElectricProd.spec_is_endgame(),
        WeaponType::ArtifactHarpoon.spec_is_endgame(),
        WeaponType::AbyssalBlade.spec_is_endgame(),
        WeaponType::Harpoon.spec_returns_to_user(),
        !WeaponType::DepthCharge.spec_returns_to_user(),
        !WeaponType::ElectricProd.spec_returns_to_user(),
        WeaponType::ArtifactHarpoon.spec_returns_to_user(),
        !WeaponType::AbyssalBlade.spec_returns_to_user(),
{
}

} // verus!
