//! The state machine of swimming creatures: patrol, chase, flee, return.
//!
//! Distances, depths and health are measured by the caller; the decision of the
//! next state from those measurements is made here.

use vstd::prelude::*;

verus! {

/// Swimming AI state.
#[derive(Debug, Clone, Copy, PartialEq, Eq, Hash, Structural)]
pub enum SwimAIState {
    /// Patrolling within home area.
    Patrol,
    /// Chasing a detected target.
    Chase,
    /// Fleeing from danger.
    Flee,
    /// Returning to depth range after straying.
    Returning,
}

/// The next state: a creature out of its depth range returns first of all; one
/// low on health flees a target it has; a healthy one chases a target within
/// detection range; otherwise it patrols.
pub open spec fn spec_next_state(
    in_depth_range: bool,
    low_health: bool,
    has_target: bool,
    target_detected: bool,
) -> SwimAIState {
    if !in_depth_range {
        SwimAIState::Returning
    } else if low_health && has_target {
        SwimAIState::Flee
    } else if has_target && target_detected && !low_health {
        SwimAIState::Chase
    } else {
        SwimAIState::Patrol
    }
}

impl SwimAIState {
    /// Determine next state based on current conditions: whether the creature is
    /// within its depth range, whether its health is below the flee threshold,
    /// whether it has a target, and whether that target is within detection range.
    pub fn next_state(in_depth_range: bool, low_health: bool, has_target: bool, target_detected: bool) -> (r: SwimAIState)
        ensures
            r == spec_next_state(in_depth_range, low_health, has_target, target_detected),
    {
        if !in_depth_range {
            return SwimAIState::Returning;
        }
        if low_health && has_target {
            return SwimAIState::Flee;
        }
        if has_target {
            if target_detected && !low_health {
                return SwimAIState::Chase;
            }
        }
        SwimAIState::Patrol
    }
}

/// Staying in depth range comes first, a creature never flees or chases without
/// a target, and a wounded creature never chases. Within its depth range a
/// wounded creature flees any target it has, near or far; a healthy one chases a
/// target it has detected; every other creature patrols.
pub proof fn lemma_next_state_priorities(in_range: bool, low: bool, has_target: bool, detected: bool)
    ensures
        in_range && low && has_target ==> spec_next_state(in_range, low, has_target, detected) == SwimAIState::Flee,
        in_range && !low && has_target && detected ==> spec_next_state(in_range, low, has_target, detected) == SwimAIState::Chase,
        in_range && !low && has_target && !detected ==> spec_next_state(in_range, low, has_target, detected) == SwimAIState::Patrol,
        in_range && low && !has_target ==> spec_next_state(in_range, low, has_target, detected) == SwimAIState::Patrol,
        spec_next_state(in_range, low, has_target, true) == SwimAIState::Flee
            <==> spec_next_state(in_range, low, has_target, false) == SwimAIState::Flee,
        !in_range ==> spec_next_state(in_range, low, has_target, detected) == SwimAIState::Returning,
        !has_target ==> spec_next_state(in_range, low, has_target, detected) != SwimAIState::Flee
            && spec_next_state(in_range, low, has_target, detected) != SwimAIState::Chase,
        low ==> spec_next_state(in_range, low, has_target, detected) != SwimAIState::Chase,
        in_range && !has_target ==> spec_next_state(in_range, low, has_target, detected) == SwimAIState::Patrol,
{
}

} // verus!
