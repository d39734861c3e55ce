//! Crafting: equipment tiers, weapons, deep crafting stations and the ancient altar.

pub mod ancient_altar;
pub mod deep_forge;
pub mod equipment;
pub mod weapons;

pub use ancient_altar::{AncientAltar, AncientRecipe};
pub use deep_forge::DeepStation;
pub use equipment::{EquipmentSlot, EquipmentTier};
pub use weapons::WeaponType;
