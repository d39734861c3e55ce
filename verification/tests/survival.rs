use abyss::survival::{best_respawn_index, DeathCause, DeathState, DeathTracker};

#[test]
fn test_death_cause_messages() {
    assert_eq!(DeathCause::Fall.message(), "fell to their death");
    assert_eq!(DeathCause::Combat.message(), "was slain");
    assert_eq!(DeathCause::Drowning.message(), "drowned");
    assert_eq!(DeathCause::Starvation.message(), "starved to death");
    assert_eq!(DeathCause::Fire.message(), "burned to death");
    assert_eq!(DeathCause::Other.message(), "died");
}

#[test]
fn test_death_state_transitions() {
    let mut manager = DeathTracker::new();
    assert!(manager.is_alive());
    assert_eq!(manager.state, DeathState::Alive);

    manager.die();
    assert!(manager.is_dying());
    assert_eq!(manager.state, DeathState::Dying);

    manager.confirm_death();
    assert!(manager.is_dead());
    assert_eq!(manager.state, DeathState::Dead);
    assert_eq!(manager.death_count, 1);
}

#[test]
fn test_respawn_points() {
    // A plain point first, then one at a base: the base is preferred.
    let at_base = vec![false, true];
    assert_eq!(best_respawn_index(&at_base), Some(1));
}

#[test]
fn test_respawn_restores_alive() {
    let mut manager = DeathTracker::new();
    manager.die();
    manager.confirm_death();
    assert!(manager.is_dead());

    let respawned = manager.respawn(true);
    assert!(respawned);
    assert!(manager.is_alive());
}

#[test]
fn test_rescue_from_dying() {
    let mut manager = DeathTracker::new();
    manager.die();
    assert!(manager.is_dying());

    let rescued = manager.rescue();
    assert!(rescued);
    assert!(manager.is_alive());
    assert_eq!(manager.death_count, 0);
}

#[test]
fn test_cannot_rescue_when_dead() {
    let mut manager = DeathTracker::new();
    manager.die();
    manager.confirm_death();

    let rescued = manager.rescue();
    assert!(!rescued);
    assert!(manager.is_dead());
}

#[test]
fn test_no_respawn_without_points() {
    let mut manager = DeathTracker::new();
    manager.die();
    manager.confirm_death();

    let respawned = manager.respawn(false);
    assert!(!respawned);
    assert!(manager.is_dead()); // Still dead, no respawn point
}

#[test]
fn dying_twice_and_confirm_alive_do_nothing() {
    let mut t = DeathTracker::new();
    t.confirm_death();
    assert!(t.is_alive());
    assert_eq!(t.death_count, 0);
    assert!(t.die());
    assert!(!t.die());
    assert!(!t.respawn(true));
    assert!(t.is_dying());
    t.confirm_death();
    t.confirm_death();
    assert_eq!(t.death_count, 1);
    assert!(t.respawn(true));
    assert!(t.die());
    t.confirm_death();
    assert_eq!(t.death_count, 2);
}

#[test]
fn best_respawn_choices() {
    assert_eq!(best_respawn_index(&vec![]), None);
    assert_eq!(best_respawn_index(&vec![false, false]), Some(0));
    assert_eq!(best_respawn_index(&vec![false, true, true]), Some(1));
    assert_eq!(best_respawn_index(&vec![true]), Some(0));
    assert_eq!(DeathState::default(), DeathState::Alive);
}
