//! Underwater base building: airlocks and power generators.

pub mod airlock;

pub use airlock::{AirlockDoors, AirlockState, PowerGenerator};
