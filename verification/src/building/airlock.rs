//! Airlock door logic, which keeps the base from flooding during entry and exit,
//! and the base's power generators.
//!
//! The airlock's cycle timer counts seconds; whether a cycle has run out is
//! decided by the caller and passed to [`AirlockDoors::update`].

use vstd::prelude::*;

verus! {

/// Airlock states.
#[derive(Debug, Clone, Copy, PartialEq, Eq, Hash, Structural)]
pub enum AirlockState {
    /// Both doors closed, waiting for input.
    Idle,
    /// Cycling: closing outer door, draining water.
    Cycling,
    /// Ready to open inner door.
    Ready,
    /// Open for passage.
    Open,
}

/// The doors and chamber of an airlock connecting water to base interior.
#[derive(Debug, Clone, Copy, PartialEq, Eq, Structural)]
pub struct AirlockDoors {
    /// Current cycle state.
    pub state: AirlockState,
    /// Whether the outer door is open.
    pub outer_door_open: bool,
    /// Whether the inner door is open.
    pub inner_door_open: bool,
    /// Whether water is present in the airlock chamber.
    pub flooded: bool,
}

/// A new airlock: idle, both doors shut, chamber flooded (it opens onto the water).
pub open spec fn spec_new_airlock() -> AirlockDoors {
    AirlockDoors { state: AirlockState::Idle, outer_door_open: false, inner_door_open: false, flooded: true }
}

/// Entering from the water: accepted only while idle with the inner door shut;
/// the outer door closes and the chamber starts cycling.
pub open spec fn spec_request_entry(a: AirlockDoors) -> (AirlockDoors, bool) {
    if a.state != AirlockState::Idle || a.inner_door_open {
        (a, false)
    } else {
        (AirlockDoors { state: AirlockState::Cycling, outer_door_open: false, ..a }, true)
    }
}

/// Leaving to the water: accepted only while idle with the outer door shut;
/// the inner door closes and the chamber starts cycling.
pub open spec fn spec_request_exit(a: AirlockDoors) -> (AirlockDoors, bool) {
    if a.state != AirlockState::Idle || a.outer_door_open {
        (a, false)
    } else {
        (AirlockDoors { state: AirlockState::Cycling, inner_door_open: false, ..a }, true)
    }
}

/// Emergency: both doors open, the chamber floods.
pub open spec fn spec_force_open(a: AirlockDoors) -> AirlockDoors {
    AirlockDoors { state: AirlockState::Open, outer_door_open: true, inner_door_open: true, flooded: true }
}

/// After passage: idle, doors shut, chamber flooded again.
pub open spec fn spec_reset(a: AirlockDoors) -> AirlockDoors {
    spec_new_airlock()
}

/// One update tick. A cycling airlock drains and becomes ready once the cycle
/// has run out; a ready airlock opens its inner door (outer shut, chamber dry).
pub open spec fn spec_update(a: AirlockDoors, cycle_elapsed: bool) -> AirlockDoors {
    match a.state {
        AirlockState::Cycling => if cycle_elapsed {
            AirlockDoors { state: AirlockState::Ready, flooded: false, ..a }
        } else {
            a
        },
        AirlockState::Ready => AirlockDoors {
            state: AirlockState::Open,
            inner_door_open: true,
            outer_door_open: false,
            flooded: false,
        },
        _ => a,
    }
}

/// Safe to pass: dry and open.
pub open spec fn spec_is_safe(a: AirlockDoors) -> bool {
    !a.flooded && a.state == AirlockState::Open
}

/// The states an airlock can reach: closed doors while idle, cycling or ready
/// (and dry once ready); when open, the inner door is open and the outer door
/// is open only if the chamber is flooded.
pub open spec fn spec_reachable(a: AirlockDoors) -> bool {
    match a.state {
        AirlockState::Idle | AirlockState::Cycling => !a.inner_door_open && !a.outer_door_open,
        AirlockState::Ready => !a.inner_door_open && !a.outer_door_open && !a.flooded,
        AirlockState::Open => a.inner_door_open && (a.outer_door_open == a.flooded),
    }
}

impl AirlockDoors {
    /// Create a new airlock.
    pub fn new() -> (r: Self)
        ensures
            r == spec_new_airlock(),
    {
        AirlockDoors { state: AirlockState::Idle, outer_door_open: false, inner_door_open: false, flooded: true }
    }

    /// Request to enter base from water.
    pub fn request_entry(&mut self) -> (r: bool)
        ensures
            (*final(self), r) == spec_request_entry(*old(self)),
    {
        if self.state != AirlockState::Idle || self.inner_door_open {
            return false;
        }
        if self.outer_door_open {
            // Close outer door first
            self.outer_door_open = false;
        }
        self.state = AirlockState::Cycling;
        true
    }

    /// Request to exit base to water.
    pub fn request_exit(&mut self) -> (r: bool)
        ensures
            (*final(self), r) == spec_request_exit(*old(self)),
    {
        if self.state != AirlockState::Idle || self.outer_door_open {
            return false;
        }
        if self.inner_door_open {
            self.inner_door_open = false;
        }
        self.state = AirlockState::Cycling;
        true
    }

    /// Force open both doors (emergency - floods the base).
    pub fn force_open(&mut self)
        ensures
            *final(self) == spec_force_open(*old(self)),
    {
        self.outer_door_open = true;
        self.inner_door_open = true;
        self.flooded = true;
        self.state = AirlockState::Open;
    }

    /// Advance the airlock cycle by one tick; `cycle_elapsed` says whether the
    /// cycle timer has run out during this tick.
    pub fn update(&mut self, cycle_elapsed: bool)
        ensures
            *final(self) == spec_update(*old(self), cycle_elapsed),
    {
        match self.state {
            AirlockState::Cycling => {
                if cycle_elapsed {
                    self.state = AirlockState::Ready;
                    self.flooded = false;
                }
            },
            AirlockState::Ready => {
                // Auto-transition to open
                self.inner_door_open = true;
                self.outer_door_open = false;
                self.flooded = false;
                self.state = AirlockState::Open;
            },
            AirlockState::Open => {},
            AirlockState::Idle => {},
        }
    }

    /// Reset airlock to idle (after passage).
    pub fn reset(&mut self)
        ensures
            *final(self) == spec_reset(*old(self)),
    {
        self.inner_door_open = false;
        self.outer_door_open = false;
        self.flooded = true;
        self.state = AirlockState::Idle;
    }

    /// Check if cycling is in progress.
    pub fn is_cycling(&self) -> (r: bool)
        ensures
            r == (self.state == AirlockState::Cycling),
    {
        self.state == AirlockState::Cycling
    }

    /// Check if safe to pass through.
    pub fn is_safe(&self) -> (r: bool)
        ensures
            r == spec_is_safe(*self),
    {
        !self.flooded && self.state == AirlockState::Open
    }
}

/// Every airlock operation keeps the airlock in a reachable state, starting
/// from a new one.
pub proof fn lemma_airlock_steps_stay_reachable(a: AirlockDoors, cycle_elapsed: bool)
    requires
        spec_reachable(a),
    ensures
        spec_reachable(spec_new_airlock()),
        spec_reachable(spec_request_entry(a).0),
        spec_reachable(spec_request_exit(a).0),
        spec_reachable(spec_force_open(a)),
        spec_reachable(spec_reset(a)),
        spec_reachable(spec_update(a, cycle_elapsed)),
{
}

/// In a reachable airlock the water never reaches the base: whenever both doors
/// are open the chamber is flooded (only an emergency opens both), and when it
/// is safe to pass the inner door is open and the outer door is shut.
pub proof fn lemma_airlock_seals_the_base(a: AirlockDoors)
    requires
        spec_reachable(a),
    ensures
        (a.inner_door_open && a.outer_door_open) ==> a.flooded && a.state == AirlockState::Open,
        spec_is_safe(a) ==> a.inner_door_open && !a.outer_door_open,
        a.state != AirlockState::Open ==> !a.inner_door_open && !a.outer_door_open,
{
}

/// A full entry: from a new airlock, an accepted entry request followed by an
/// elapsed cycle drains the chamber, and the next tick opens it for safe passage;
/// forcing it open afterwards floods it, and a reset returns it to a new airlock.
pub proof fn lemma_entry_cycle()
    ensures
        spec_request_entry(spec_new_airlock()).1,
        !spec_update(spec_request_entry(spec_new_airlock()).0, true).flooded,
        spec_is_safe(spec_update(spec_update(spec_request_entry(spec_new_airlock()).0, true), true)),
        spec_update(spec_request_entry(spec_new_airlock()).0, false) == spec_request_entry(spec_new_airlock()).0,
        spec_force_open(spec_update(spec_request_entry(spec_new_airlock()).0, true)).flooded,
        spec_reset(spec_force_open(spec_new_airlock())) == spec_new_airlock(),
{
}

/// What each airlock operation does, door by door.
///
/// - A new airlock, and one just reset, is idle with both doors shut and the
///   chamber flooded.
/// - An entry request is accepted exactly when the airlock is idle and the inner
///   door is shut; an exit request exactly when it is idle and the outer door is
///   shut. An accepted request starts the cycle, shuts the door on the side being
///   left behind and changes nothing else; a refused request changes nothing.
/// - A tick drains a cycling airlock once its cycle has run out (making it
///   ready), opens a ready airlock onto the base (inner door open, outer door
///   shut, chamber dry), and leaves an idle or open airlock as it is.
/// - Forcing it open opens both doors and floods the chamber.
/// - Passing is safe exactly when the airlock is open and dry.
pub proof fn lemma_airlock_operations(a: AirlockDoors, cycle_elapsed: bool)
    ensures
        spec_new_airlock() == (AirlockDoors {
            state: AirlockState::Idle,
            outer_door_open: false,
            inner_door_open: false,
            flooded: true,
        }),
        spec_reset(a) == spec_new_airlock(),
        spec_request_entry(a).1 == (a.state == AirlockState::Idle && !a.inner_door_open),
        spec_request_entry(a).1 ==> spec_request_entry(a).0 == (AirlockDoors {
            state: AirlockState::Cycling,
            outer_door_open: false,
            inner_door_open: a.inner_door_open,
            flooded: a.flooded,
        }),
        !spec_request_entry(a).1 ==> spec_request_entry(a).0 == a,
        spec_request_exit(a).1 == (a.state == AirlockState::Idle && !a.outer_door_open),
        spec_request_exit(a).1 ==> spec_request_exit(a).0 == (AirlockDoors {
            state: AirlockState::Cycling,
            outer_door_open: a.outer_door_open,
            inner_door_open: false,
            flooded: a.flooded,
        }),
        !spec_request_exit(a).1 ==> spec_request_exit(a).0 == a,
        a.state == AirlockState::Cycling && cycle_elapsed ==> spec_update(a, cycle_elapsed) == (AirlockDoors {
            state: AirlockState::Ready,
            flooded: false,
            ..a
        }),
        a.state == AirlockState::Cycling && !cycle_elapsed ==> spec_update(a, cycle_elapsed) == a,
        a.state == AirlockState::Ready ==> spec_update(a, cycle_elapsed) == (AirlockDoors {
            state: AirlockState::Open,
            outer_door_open: false,
            inner_door_open: true,
            flooded: false,
        }),
        a.state == AirlockState::Idle || a.state == AirlockState::Open ==> spec_update(a, cycle_elapsed) == a,
        spec_force_open(a) == (AirlockDoors {
            state: AirlockState::Open,
            outer_door_open: true,
            inner_door_open: true,
            flooded: true,
        }),
        spec_is_safe(a) == (a.state == AirlockState::Open && !a.flooded),
{
}

/// Either way through: a new airlock accepts both an entry and an exit request,
/// each of which starts the cycle with both doors shut; more generally every idle
/// airlock with its doors shut accepts both, even while its chamber is flooded.
pub proof fn lemma_new_airlock_accepts_both_ways(a: AirlockDoors)
    ensures
        spec_request_entry(spec_new_airlock()).1,
        spec_request_exit(spec_new_airlock()).1,
        spec_request_exit(spec_new_airlock()).0.state == AirlockState::Cycling,
        spec_request_exit(spec_new_airlock()).0.inner_door_open == false,
        spec_request_exit(spec_new_airlock()).0.outer_door_open == false,
        a.state == AirlockState::Idle && !a.inner_door_open && !a.outer_door_open ==> {
            &&& spec_request_entry(a).1
            &&& spec_request_exit(a).1
            &&& spec_request_exit(a).0.state == AirlockState::Cycling
            &&& spec_request_entry(a).0.state == AirlockState::Cycling
        },
{
}

/// Power generator type.
#[derive(Debug, Clone, Copy, PartialEq, Eq, Hash, Structural)]
pub enum PowerGenerator {
    /// Thermal generator near vents.
    Thermal,
    /// Solar panels at surface.
    Solar,
    /// Bio generator from organic matter.
    Bio,
}

impl PowerGenerator {
    /// Whether this generator requires a feature nearby: only the thermal one,
    /// which must stand near a vent.
    pub fn requires_feature(&self) -> (r: bool)
        ensures
            r == (*self == PowerGenerator::Thermal),
    {
        *self == PowerGenerator::Thermal
    }
}

} // verus!
