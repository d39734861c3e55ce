//! Deep-sea survival game logic: resources, creatures, crafting, depth zones,
//! base airlocks, diving, lights, oxygen, pressure, death and respawn.

pub mod audio;
pub mod bioluminescence;
pub mod building;
pub mod crafting;
pub mod creatures;
pub mod diving;
pub mod light;
pub mod networking;
pub mod ocean;
pub mod oxygen;
pub mod particles;
pub mod pressure;
pub mod profiling;
pub mod survival;
pub mod swim_ai;
pub mod world;
