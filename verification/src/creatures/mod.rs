//! Underwater creatures: hostile predators and passive wildlife.

pub mod hostile;
pub mod passive;

pub use hostile::HostileType;
pub use passive::PassiveType;
