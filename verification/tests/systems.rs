use abyss::audio::{all_ambients, UnderwaterAmbient};
use abyss::building::airlock::{AirlockDoors, AirlockState, PowerGenerator};
use abyss::diving::BuoyancyState;
use abyss::light::{active_after_remove, count_of_kind, indices_of_kind, PlayerLight};
use abyss::networking::{PressureWarning, RescueDragEvent};
use abyss::ocean::{next_zone, DepthZone as OceanZone};
use abyss::oxygen::{TankSlot, MAX_TANKS};
use abyss::particles::{ambient_spawn_count, has_room, kick_count, MAX_PARTICLES};
use abyss::pressure::suit::SuitTier;
use abyss::pressure::zones::{DepthZone, PressureZones, ZONE_COUNT};
use abyss::profiling::{FrameWindow, SystemName};
use abyss::swim_ai::SwimAIState;

#[test]
fn test_airlock_starts_idle() {
    let airlock = AirlockDoors::new();
    assert_eq!(airlock.state, AirlockState::Idle);
    assert!(airlock.flooded);
}

#[test]
fn test_airlock_cycle() {
    let mut airlock = AirlockDoors::new();
    assert!(airlock.request_entry());
    assert!(airlock.is_cycling());
    airlock.update(true);
    assert!(!airlock.flooded);
}

#[test]
fn test_force_open_floods() {
    let mut airlock = AirlockDoors::new();
    airlock.request_entry();
    airlock.update(true);
    airlock.force_open();
    assert!(airlock.flooded);
}

#[test]
fn test_airlock_reset() {
    let mut airlock = AirlockDoors::new();
    airlock.request_entry();
    airlock.update(true);
    airlock.reset();
    assert_eq!(airlock.state, AirlockState::Idle);
}

#[test]
fn airlock_full_passage() {
    let mut airlock = AirlockDoors::new();
    assert!(!airlock.request_exit() || airlock.is_cycling());
    let mut airlock2 = AirlockDoors::new();
    assert!(airlock2.request_entry());
    assert!(!airlock2.request_entry()); // already cycling
    airlock2.update(false);
    assert!(airlock2.is_cycling());
    assert!(airlock2.flooded);
    airlock2.update(true);
    assert_eq!(airlock2.state, AirlockState::Ready);
    assert!(!airlock2.is_safe());
    airlock2.update(true);
    assert_eq!(airlock2.state, AirlockState::Open);
    assert!(airlock2.is_safe());
    assert!(airlock2.inner_door_open);
    assert!(!airlock2.outer_door_open);
    airlock2.force_open();
    assert!(!airlock2.is_safe());
    airlock.reset();
    assert_eq!(airlock, AirlockDoors::new());
}

#[test]
fn power_generator_feature() {
    assert!(PowerGenerator::Thermal.requires_feature());
    assert!(!PowerGenerator::Solar.requires_feature());
    assert!(!PowerGenerator::Bio.requires_feature());
}

#[test]
fn test_light_inventory_find_by_type() {
    let kinds = vec![PlayerLight::Headlamp, PlayerLight::Flare, PlayerLight::Headlamp];
    let headlamps = indices_of_kind(&kinds, PlayerLight::Headlamp);
    assert_eq!(headlamps.len(), 2);
    assert_eq!(headlamps, vec![0, 2]);
    assert_eq!(count_of_kind(&kinds, PlayerLight::Flare), 1);
}

#[test]
fn test_remove_active_light_clears_active() {
    assert!(active_after_remove(Some(0), 0).is_none());
}

#[test]
fn active_light_shifts_on_remove() {
    assert_eq!(active_after_remove(Some(2), 0), Some(1));
    assert_eq!(active_after_remove(Some(1), 3), Some(1));
    assert_eq!(active_after_remove(None, 1), None);
}

#[test]
fn light_kind_flags() {
    assert!(PlayerLight::Headlamp.uses_battery());
    assert!(PlayerLight::Floodlight.uses_battery());
    assert!(!PlayerLight::Flare.uses_battery());
    assert!(PlayerLight::Flare.is_throwable());
    assert!(!PlayerLight::BioluminescenceGlow.is_throwable());
    assert_eq!(PlayerLight::BioluminescenceGlow.name(), "BioluminescenceGlow");
}

#[test]
fn test_pressure_warning_colors() {
    assert_eq!(PressureWarning::Safe.color_code(), "green");
    assert_eq!(PressureWarning::Moderate.color_code(), "yellow");
    assert_eq!(PressureWarning::High.color_code(), "red");
    assert_eq!(PressureWarning::Extreme.color_code(), "purple");
}

#[test]
fn test_rescue_drag_event() {
    let event = RescueDragEvent::new(1, 2, true);
    assert_eq!(event.rescuer_id, 1);
    assert_eq!(event.victim_id, 2);
    assert!(event.started);
}

#[test]
fn zones_test_zone_names() {
    assert_eq!(DepthZone::Sunlight.name(), "Sunlight Zone");
    assert_eq!(DepthZone::Hadal.name(), "Hadal Zone");
}

#[test]
fn test_zone_requires_suit() {
    assert!(!DepthZone::Sunlight.requires_suit());
    assert!(DepthZone::Twilight.requires_suit());
    assert!(DepthZone::Hadal.requires_suit());
}

#[test]
fn zones_all_in_order_and_switch() {
    assert_eq!(DepthZone::ALL.len(), ZONE_COUNT);
    assert_eq!(DepthZone::ALL[0], DepthZone::Sunlight);
    assert_eq!(DepthZone::ALL[4], DepthZone::Hadal);
    let mut zones = PressureZones::new();
    assert!(zones.is_enabled());
    zones.set_enabled(false);
    assert!(!zones.is_enabled());
    zones.set_enabled(true);
    assert!(zones.is_enabled());
    assert!(PressureZones::default().is_enabled());
    assert_eq!(SuitTier::Reinforced.name(), "Reinforced Pressure Suit");
    assert_eq!(SuitTier::Vessel.name(), "Pressure Vessel");
}

#[test]
fn depth_layers_test_zone_names() {
    assert_eq!(OceanZone::Sunlight.name(), "Sunlight Zone");
    assert_eq!(OceanZone::Hadal.name(), "Hadal Zone");
}

#[test]
fn next_zone_chain() {
    assert_eq!(next_zone(OceanZone::Sunlight), Some(OceanZone::Twilight));
    assert_eq!(next_zone(OceanZone::Abyssal), Some(OceanZone::Hadal));
    assert_eq!(next_zone(OceanZone::Hadal), None);
}

#[test]
fn test_system_name_all() {
    let all = SystemName::all();
    assert_eq!(all.len(), 10);
    assert!(all.contains(&SystemName::Oxygen));
    assert!(all.contains(&SystemName::Physics));
    assert!(all.contains(&SystemName::Audio));
}

#[test]
fn frame_window_wraps() {
    let mut w = FrameWindow::new(4);
    assert_eq!(w.frame_count(), 0);
    assert_eq!(w.record(), 0);
    assert_eq!(w.record(), 1);
    assert_eq!(w.record(), 2);
    assert_eq!(w.frame_count(), 3);
    assert_eq!(w.record(), 3);
    assert_eq!(w.record(), 0);
    assert_eq!(w.frame_count(), 4);
    assert_eq!(w.max_frames(), 4);
}

#[test]
fn swim_ai_decisions() {
    // Out of its depth range a creature returns, whatever else holds.
    assert_eq!(SwimAIState::next_state(false, true, true, true), SwimAIState::Returning);
    // Low health with a target: flee.
    assert_eq!(SwimAIState::next_state(true, true, true, true), SwimAIState::Flee);
    // Healthy with a target in range: chase.
    assert_eq!(SwimAIState::next_state(true, false, true, true), SwimAIState::Chase);
    // Target out of range, or no target: patrol.
    assert_eq!(SwimAIState::next_state(true, false, true, false), SwimAIState::Patrol);
    assert_eq!(SwimAIState::next_state(true, true, false, false), SwimAIState::Patrol);
}

#[test]
fn particle_budget() {
    assert!(has_room(0));
    assert!(!has_room(MAX_PARTICLES));
    assert_eq!(ambient_spawn_count(true, 0, 0), 30);
    assert_eq!(ambient_spawn_count(true, 10, 190), 10);
    assert_eq!(ambient_spawn_count(true, 25, 100), 5);
    assert_eq!(ambient_spawn_count(false, 0, 0), 0);
    assert_eq!(ambient_spawn_count(true, 0, MAX_PARTICLES), 0);
    assert_eq!(kick_count(true, 0), 5);
    assert_eq!(kick_count(true, 198), 2);
    assert_eq!(kick_count(true, 250), 0);
    assert_eq!(kick_count(false, 0), 0);
}

#[test]
fn enums_and_slots() {
    assert_eq!(BuoyancyState::default(), BuoyancyState::Neutral);
    assert_eq!(TankSlot::all(), vec![TankSlot(0), TankSlot(1), TankSlot(2)]);
    assert_eq!(TankSlot::all().len(), MAX_TANKS);
    assert_eq!(TankSlot::slot_2(), TankSlot(2));
    assert!(TankSlot::slot_0().is_valid());
    assert!(!TankSlot(3).is_valid());
    assert_eq!(all_ambients().len(), 6);
    assert_eq!(all_ambients()[3], UnderwaterAmbient::DeepRumble);
}
