//! Death and respawn: causes of death, the Alive / Dying / Dead cycle with its
//! rescue grace period, and the choice of respawn point.
//!
//! The grace-period and body-recovery timers count seconds; the caller decides
//! when the grace period has run out and then confirms the death.

use vstd::prelude::*;

verus! {

/// Cause of player death.
#[derive(Debug, Clone, Copy, PartialEq, Eq, Structural)]
pub enum DeathCause {
    /// Fell from a height.
    Fall,
    /// Attacked by an entity.
    Combat,
    /// Drowned underwater.
    Drowning,
    /// Starvation (hunger depleted).
    Starvation,
    /// Burned by fire or lava.
    Fire,
    /// Unknown or generic damage.
    Other,
}

impl DeathCause {
    /// The death message of each cause.
    pub open spec fn spec_message(self) -> Seq<char> {
        match self {
            DeathCause::Fall => "fell to their death"@,
            DeathCause::Combat => "was slain"@,
            DeathCause::Drowning => "drowned"@,
            DeathCause::Starvation => "starved to death"@,
            DeathCause::Fire => "burned to death"@,
            DeathCause::Other => "died"@,
        }
    }

    /// Get a human-readable death message.
    pub fn message(&self) -> (r: &'static str)
        ensures
            r@ == self.spec_message(),
    {
        match self {
            DeathCause::Fall => "fell to their death",
            DeathCause::Combat => "was slain",
            DeathCause::Drowning => "drowned",
            DeathCause::Starvation => "starved to death",
            DeathCause::Fire => "burned to death",
            DeathCause::Other => "died",
        }
    }
}

/// Current state of a player's life/death cycle.
#[derive(Clone, Copy, Debug, PartialEq, Eq, Structural)]
pub enum DeathState {
    /// Player is alive and active.
    Alive,
    /// Player is dying (grace period for potential rescue).
    Dying,
    /// Player is dead, waiting for respawn.
    Dead,
}

impl Default for DeathState {
    fn default() -> (r: Self)
        ensures
            r == DeathState::Alive,
    {
        DeathState::Alive
    }
}

/// A player's place in the life/death cycle and how many deaths they have had.
#[derive(Clone, Copy, Debug, PartialEq, Eq, Structural)]
pub struct DeathTracker {
    /// Current death state.
    pub state: DeathState,
    /// Total number of deaths.
    pub death_count: u32,
}

/// A fresh player: alive, no deaths.
pub open spec fn spec_new_tracker() -> DeathTracker {
    DeathTracker { state: DeathState::Alive, death_count: 0 }
}

/// Starting to die: only an alive player enters the dying grace period.
pub open spec fn spec_die(t: DeathTracker) -> (DeathTracker, bool) {
    if t.state == DeathState::Alive {
        (DeathTracker { state: DeathState::Dying, ..t }, true)
    } else {
        (t, false)
    }
}

/// Confirming a death: a dying player becomes dead and the death is counted.
pub open spec fn spec_confirm_death(t: DeathTracker) -> DeathTracker {
    if t.state == DeathState::Dying {
        DeathTracker { state: DeathState::Dead, death_count: (t.death_count + 1) as u32 }
    } else {
        t
    }
}

/// Respawning: a dead player comes back to life when there is somewhere to
/// respawn.
pub open spec fn spec_respawn(t: DeathTracker, has_point: bool) -> (DeathTracker, bool) {
    if t.state == DeathState::Dead && has_point {
        (DeathTracker { state: DeathState::Alive, ..t }, true)
    } else {
        (t, false)
    }
}

/// A rescue: a buddy saves a dying player, who lives on with no death counted.
pub open spec fn spec_rescue(t: DeathTracker) -> (DeathTracker, bool) {
    if t.state == DeathState::Dying {
        (DeathTracker { state: DeathState::Alive, ..t }, true)
    } else {
        (t, false)
    }
}

impl DeathTracker {
    /// Create a new tracker.
    pub fn new() -> (r: Self)
        ensures
            r == spec_new_tracker(),
    {
        DeathTracker { state: DeathState::Alive, death_count: 0 }
    }

    /// Initiate the dying process; returns whether the player started dying.
    /// If already dying or dead, this has no effect.
    pub fn die(&mut self) -> (r: bool)
        ensures
            (*final(self), r) == spec_die(*old(self)),
    {
        if self.state != DeathState::Alive {
            return false;
        }
        self.state = DeathState::Dying;
        true
    }

    /// Transition from Dying to Dead state immediately.
    pub fn confirm_death(&mut self)
        requires
            old(self).state == DeathState::Dying ==> old(self).death_count < u32::MAX,
        ensures
            *final(self) == spec_confirm_death(*old(self)),
    {
        if self.state == DeathState::Dying {
            self.state = DeathState::Dead;
            self.death_count = self.death_count + 1;
        }
    }

    /// Respawn a dead player if a respawn point exists; returns whether the
    /// player came back to life.
    pub fn respawn(&mut self, has_point: bool) -> (r: bool)
        ensures
            (*final(self), r) == spec_respawn(*old(self), has_point),
    {
        if self.state != DeathState::Dead {
            return false;
        }
        if has_point {
            self.state = DeathState::Alive;
            true
        } else {
            false
        }
    }

    /// Rescue the player from dying state; returns true if rescue was successful.
    pub fn rescue(&mut self) -> (r: bool)
        ensures
            (*final(self), r) == spec_rescue(*old(self)),
    {
        if self.state == DeathState::Dying {
            self.state = DeathState::Alive;
            true
        } else {
            false
        }
    }

    /// Check if the player is alive.
    pub fn is_alive(&self) -> (r: bool)
        ensures
            r == (self.state == DeathState::Alive),
    {
        self.state == DeathState::Alive
    }

    /// Check if the player is in the dying state.
    pub fn is_dying(&self) -> (r: bool)
        ensures
            r == (self.state == DeathState::Dying),
    {
        self.state == DeathState::Dying
    }

    /// Check if the player is dead.
    pub fn is_dead(&self) -> (r: bool)
        ensures
            r == (self.state == DeathState::Dead),
    {
        self.state == DeathState::Dead
    }
}

/// Deaths are counted exactly when a dying player's death is confirmed; a rescue
/// saves only a dying player and counts nothing; nothing revives the dead but a
/// respawn, which needs a respawn point.
pub proof fn lemma_death_counting(t: DeathTracker, has_point: bool)
    requires
        t.death_count < u32::MAX,
    ensures
        spec_confirm_death(t).death_count == t.death_count + (if t.state == DeathState::Dying { 1int } else { 0int }),
        spec_die(t).0.death_count == t.death_count,
        spec_rescue(t).0.death_count == t.death_count,
        spec_respawn(t, has_point).0.death_count == t.death_count,
        spec_rescue(t).1 <==> t.state == DeathState::Dying,
        t.state == DeathState::Dead ==> !spec_rescue(t).1 && spec_rescue(t).0.state == DeathState::Dead,
        spec_respawn(t, has_point).1 <==> (t.state == DeathState::Dead && has_point),
        !has_point ==> spec_respawn(t, has_point).0 == t,
{
}

/// What each step of the life/death cycle does.
///
/// - A new player is alive with no deaths.
/// - Starting to die works exactly for an alive player, who becomes dying; for a
///   dying or dead player it changes nothing.
/// - Confirming a death turns a dying player dead and counts one death; for
///   anyone else it changes nothing.
/// - A rescue works exactly for a dying player, who is alive again with no death
///   counted; for anyone else it changes nothing.
/// - A respawn works exactly for a dead player with a respawn point, who is
///   alive again; otherwise it changes nothing.
pub proof fn lemma_death_steps(t: DeathTracker, has_point: bool)
    ensures
        spec_new_tracker() == (DeathTracker { state: DeathState::Alive, death_count: 0 }),
        spec_die(t).1 == (t.state == DeathState::Alive),
        t.state == DeathState::Alive ==> spec_die(t).0 == (DeathTracker {
            state: DeathState::Dying,
            death_count: t.death_count,
        }),
        t.state != DeathState::Alive ==> spec_die(t) == (t, false),
        t.state == DeathState::Dying ==> spec_confirm_death(t).state == DeathState::Dead
            && spec_confirm_death(t).death_count == (t.death_count + 1) as u32,
        t.state != DeathState::Dying ==> spec_confirm_death(t) == t,
        spec_rescue(t).1 == (t.state == DeathState::Dying),
        t.state == DeathState::Dying ==> spec_rescue(t).0 == (DeathTracker {
            state: DeathState::Alive,
            death_count: t.death_count,
        }),
        t.state != DeathState::Dying ==> spec_rescue(t) == (t, false),
        spec_respawn(t, has_point).1 == (t.state == DeathState::Dead && has_point),
        t.state == DeathState::Dead && has_point ==> spec_respawn(t, has_point).0 == (DeathTracker {
            state: DeathState::Alive,
            death_count: t.death_count,
        }),
        !(t.state == DeathState::Dead && has_point) ==> spec_respawn(t, has_point) == (t, false),
{
}

/// The dead stay dead until they respawn: neither starting to die again nor a
/// rescue, in any order, brings a dead player back.
pub proof fn lemma_dead_stay_dead(t: DeathTracker)
    requires
        t.state == DeathState::Dead,
    ensures
        spec_die(t) == (t, false),
        spec_rescue(spec_die(t).0) == (t, false),
        spec_die(spec_rescue(t).0) == (t, false),
        spec_confirm_death(t) == t,
{
}

/// One whole cycle: a player who dies, has the death confirmed and respawns is
/// alive again with one more death; a player rescued while dying is alive with
/// none.
pub proof fn lemma_death_cycle(t: DeathTracker)
    requires
        t.state == DeathState::Alive,
        t.death_count < u32::MAX,
    ensures
        ({
            let dead = spec_confirm_death(spec_die(t).0);
            &&& dead.state == DeathState::Dead
            &&& spec_respawn(dead, true).0 == DeathTracker { state: DeathState::Alive, death_count: (t.death_count + 1) as u32 }
        }),
        spec_rescue(spec_die(t).0).0 == t,
{
}

/// The respawn point a player returns to: the first one at a base if any,
/// otherwise the first one, given which points stand at a base.
pub open spec fn spec_best_respawn(at_base: Seq<bool>) -> Option<usize> {
    if exists|i: int| 0 <= i < at_base.len() && at_base[i] {
        Some((choose|i: int| 0 <= i < at_base.len() && at_base[i]
            && forall|j: int| 0 <= j < i ==> !at_base[j]) as usize)
    } else if at_base.len() > 0 {
        Some(0usize)
    } else {
        None
    }
}

/// Index of the best respawn point (prefers base respawns), given for each
/// point whether it stands at a base.
pub fn best_respawn_index(at_base: &Vec<bool>) -> (r: Option<usize>)
    ensures
        match r {
            Some(i) => {
                &&& i < at_base.len()
                &&& forall|j: int| 0 <= j < i ==> !at_base@[j]
                &&& (at_base@[i as int] || forall|j: int| 0 <= j < at_base.len() ==> !at_base@[j])
            },
            None => at_base.len() == 0,
        },
        r == spec_best_respawn(at_base@),
{
    let mut i: usize = 0;
    while i < at_base.len()
        invariant
            i <= at_base.len(),
            forall|j: int| 0 <= j < i ==> !at_base@[j],
        decreases at_base.len() - i,
    {
        if at_base[i] {
            proof {
                let w = choose|k: int| 0 <= k < at_base@.len() && at_base@[k]
                    && forall|j: int| 0 <= j < k ==> !at_base@[j];
                assert(0 <= i < at_base@.len() && at_base@[i as int]
                    && forall|j: int| 0 <= j < i ==> !at_base@[j]);
                if w < i {
                    assert(!at_base@[w]);
                } else if w > i {
                    assert(!at_base@[i as int]);
                }
            }
            return Some(i);
        }
        i = i + 1;
    }
    if at_base.len() > 0 {
        Some(0)
    } else {
        None
    }
}

/// The death message shown for each cause of death.
pub proof fn lemma_death_cause_table()
    ensures
        DeathCause::Fall.spec_message() == "fell to their death"@,
        DeathCause::Combat.spec_message() == "was slain"@,
        DeathCause::Drowning.spec_message() == "drowned"@,
        DeathCause::Starvation.spec_message() == "starved to death"@,
        DeathCause::Fire.spec_message() == "burned to death"@,
        DeathCause::Other.spec_message() == "died"@,
{
}

} // verus!
