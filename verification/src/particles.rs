//! Underwater particle effects: the shared particle budget and plankton glow levels.
//!
//! Every emitter (bubbles, sediment, plankton) holds at most [`MAX_PARTICLES`]
//! particles; the functions here decide how many new particles an emitter may add.

use vstd::prelude::*;

verus! {

/// Maximum active particles across all systems.
pub const MAX_PARTICLES: usize = 200;

/// Number of ambient plankton to maintain.
pub const AMBIENT_PLANKTON_COUNT: usize = 30;

/// Sediment particles kicked up per kick.
pub const SEDIMENT_PER_KICK: usize = 5;

/// Bioluminescence intensity levels.
#[derive(Debug, Clone, Copy, PartialEq, Eq, Structural)]
pub enum BioluminescenceLevel {
    /// No bioluminescence (above 200m).
    Dark,
    /// Faint glow (200-350m).
    Faint,
    /// Moderate glow (350-500m).
    Moderate,
    /// Strong glow (500m+).
    Strong,
}

/// `a - b`, or 0 when `b` exceeds `a`.
pub open spec fn spec_saturating_sub(a: int, b: int) -> int {
    if a > b { a - b } else { 0 }
}

/// Whether an emitter holding `total` particles may add one more.
pub fn has_room(total: usize) -> (r: bool)
    ensures
        r == (total < MAX_PARTICLES),
{
    total < MAX_PARTICLES
}

/// How many plankton to spawn around the player: enough to bring the living
/// plankton up to the ambient count, within the room left in the budget, and
/// none while the emitter is off or full.
pub fn ambient_spawn_count(active: bool, alive: usize, total: usize) -> (r: usize)
    ensures
        r == if !active || total >= MAX_PARTICLES {
            0
        } else {
            vstd::math::min(
                spec_saturating_sub(AMBIENT_PLANKTON_COUNT as int, alive as int),
                spec_saturating_sub(MAX_PARTICLES as int, total as int),
            )
        },
{
    if !active || total >= MAX_PARTICLES {
        return 0;
    }
    let needed = AMBIENT_PLANKTON_COUNT.saturating_sub(alive);
    let budget = MAX_PARTICLES.saturating_sub(total);
    if needed < budget { needed } else { budget }
}

/// How many sediment particles a kick raises: a fixed handful, within the room
/// left in the budget, and none while the emitter is off.
pub fn kick_count(active: bool, total: usize) -> (r: usize)
    ensures
        r == if !active {
            0
        } else {
            vstd::math::min(SEDIMENT_PER_KICK as int, spec_saturating_sub(MAX_PARTICLES as int, total as int))
        },
{
    if !active {
        return 0;
    }
    let budget = MAX_PARTICLES.saturating_sub(total);
    if SEDIMENT_PER_KICK < budget { SEDIMENT_PER_KICK } else { budget }
}

/// The particle budget holds: an emitter within budget stays within budget after
/// any emission these rules allow, and ambient spawning never raises the living
/// plankton above the ambient count.
pub proof fn lemma_budget_holds(active: bool, alive: usize, total: usize)
    requires
        total <= MAX_PARTICLES,
    ensures
        (total < MAX_PARTICLES) ==> total + 1 <= MAX_PARTICLES,
        total + vstd::math::min(SEDIMENT_PER_KICK as int,
            spec_saturating_sub(MAX_PARTICLES as int, total as int)) <= MAX_PARTICLES,
        active && total < MAX_PARTICLES ==> {
            let n = vstd::math::min(
                spec_saturating_sub(AMBIENT_PLANKTON_COUNT as int, alive as int),
                spec_saturating_sub(MAX_PARTICLES as int, total as int),
            );
            &&& total + n <= MAX_PARTICLES
            &&& (alive <= AMBIENT_PLANKTON_COUNT ==> alive + n <= AMBIENT_PLANKTON_COUNT)
        },
{
}

} // verus!
