//! Player light sources: the kinds of light, and the bookkeeping of a player's
//! light inventory (which light is active, and finding lights by kind).

use vstd::prelude::*;

verus! {

/// Types of player-carried light sources.
#[derive(Clone, Copy, Debug, PartialEq, Eq, Structural)]
pub enum PlayerLight {
    /// Standard headlamp with narrow beam.
    /// 16-block range, low battery drain.
    Headlamp,
    /// Wide-angle floodlight.
    /// 24-block range, high battery drain.
    Floodlight,
    /// Throwable emergency flare.
    /// 8-block range, 30 second duration, no battery.
    Flare,
    /// Passive glow from bioluminescent equipment.
    /// 4-block range, no battery required.
    BioluminescenceGlow,
}

impl PlayerLight {
    /// The display name of a light.
    pub open spec fn spec_name(self) -> Seq<char> {
        match self {
            PlayerLight::Headlamp => "Headlamp"@,
            PlayerLight::Floodlight => "Floodlight"@,
            PlayerLight::Flare => "Flare"@,
            PlayerLight::BioluminescenceGlow => "BioluminescenceGlow"@,
        }
    }

    /// Headlamps and floodlights run on battery.
    pub open spec fn spec_uses_battery(self) -> bool {
        self == PlayerLight::Headlamp || self == PlayerLight::Floodlight
    }

    /// Check if this light type uses battery.
    pub fn uses_battery(&self) -> (r: bool)
        ensures
            r == self.spec_uses_battery(),
    {
        matches!(self, PlayerLight::Headlamp | PlayerLight::Floodlight)
    }

    /// Check if this light type is throwable: only flares are.
    pub fn is_throwable(&self) -> (r: bool)
        ensures
            r == (*self == PlayerLight::Flare),
    {
        matches!(self, PlayerLight::Flare)
    }

    /// Get the name of this light type as a string.
    pub fn name(&self) -> (r: &'static str)
        ensures
            r@ == self.spec_name(),
    {
        match self {
            PlayerLight::Headlamp => "Headlamp",
            PlayerLight::Floodlight => "Floodlight",
            PlayerLight::Flare => "Flare",
            PlayerLight::BioluminescenceGlow => "BioluminescenceGlow",
        }
    }
}

/// Where the active light sits after the light at `removed` leaves the
/// inventory: no active light stays none, the removed light stops being active,
/// and an active light behind the removed one moves up one place.
pub open spec fn spec_active_after_remove(active: Option<usize>, removed: usize) -> Option<usize> {
    match active {
        None => None,
        Some(a) => if a == removed {
            None
        } else if a > removed {
            Some((a - 1) as usize)
        } else {
            Some(a)
        },
    }
}

/// New index of the active light once the light at `removed` is taken out.
pub fn active_after_remove(active: Option<usize>, removed: usize) -> (r: Option<usize>)
    ensures
        r == spec_active_after_remove(active, removed),
{
    match active {
        None => None,
        Some(a) => {
            if a == removed {
                None
            } else if a > removed {
                Some(a - 1)
            } else {
                Some(a)
            }
        },
    }
}

/// Removing a light never changes which light is active unless it was the
/// active one: the active index, adjusted, still points at the same light.
pub proof fn lemma_remove_keeps_active_light<T>(lights: Seq<T>, active: usize, removed: usize)
    requires
        active < lights.len(),
        removed < lights.len(),
    ensures
        active == removed ==> spec_active_after_remove(Some(active), removed) is None,
        active != removed ==> {
            let a = spec_active_after_remove(Some(active), removed)->0;
            &&& spec_active_after_remove(Some(active), removed) is Some
            &&& a < lights.remove(removed as int).len()
            &&& lights.remove(removed as int)[a as int] == lights[active as int]
        },
{
}

/// The positions, in increasing order, of the lights of kind `t`.
pub open spec fn spec_indices_of(kinds: Seq<PlayerLight>, t: PlayerLight) -> Seq<usize>
    decreases kinds.len(),
{
    if kinds.len() == 0 {
        Seq::empty()
    } else {
        let before = spec_indices_of(kinds.drop_last(), t);
        if kinds.last() == t {
            before.push((kinds.len() - 1) as usize)
        } else {
            before
        }
    }
}

/// Positions of the lights of a given kind, in inventory order.
pub fn indices_of_kind(kinds: &Vec<PlayerLight>, t: PlayerLight) -> (r: Vec<usize>)
    ensures
        r@ == spec_indices_of(kinds@, t),
{
    let mut r: Vec<usize> = Vec::new();
    let mut i: usize = 0;
    while i < kinds.len()
        invariant
            i <= kinds.len(),
            r@ == spec_indices_of(kinds@.take(i as int), t),
        decreases kinds.len() - i,
    {
        assert(kinds@.take((i + 1) as int).drop_last() == kinds@.take(i as int));
        if kinds[i] == t {
            r.push(i);
        }
        i = i + 1;
    }
    assert(kinds@.take(kinds.len() as int) == kinds@);
    r
}

/// Number of lights of a given kind.
pub fn count_of_kind(kinds: &Vec<PlayerLight>, t: PlayerLight) -> (r: usize)
    ensures
        r == spec_indices_of(kinds@, t).len(),
{
    let mut n: usize = 0;
    let mut i: usize = 0;
    while i < kinds.len()
        invariant
            i <= kinds.len(),
            n == spec_indices_of(kinds@.take(i as int), t).len(),
            n <= i,
        decreases kinds.len() - i,
    {
        assert(kinds@.take((i + 1) as int).drop_last() == kinds@.take(i as int));
        if kinds[i] == t {
            n = n + 1;
        }
        i = i + 1;
    }
    assert(kinds@.take(kinds.len() as int) == kinds@);
    n
}

/// The positions found for a kind are exactly the positions holding that kind,
/// in strictly increasing order.
pub proof fn lemma_indices_of_exact(kinds: Seq<PlayerLight>, t: PlayerLight)
    requires
        kinds.len() <= usize::MAX,
    ensures
        forall|k: int| 0 <= k < spec_indices_of(kinds, t).len() ==> {
            let i = #[trigger] spec_indices_of(kinds, t)[k];
            &&& i < kinds.len()
            &&& kinds[i as int] == t
        },
        forall|k: int, m: int| 0 <= k < m < spec_indices_of(kinds, t).len()
            ==> spec_indices_of(kinds, t)[k] < spec_indices_of(kinds, t)[m],
        forall|i: int| 0 <= i < kinds.len() && kinds[i] == t
            ==> #[trigger] spec_indices_of(kinds, t).contains(i as usize),
    decreases kinds.len(),
{
    if kinds.len() > 0 {
        let pre = kinds.drop_last();
        lemma_indices_of_exact(pre, t);
        let before = spec_indices_of(pre, t);
        let r = spec_indices_of(kinds, t);
        assert forall|i: int| 0 <= i < kinds.len() && kinds[i] == t implies #[trigger] r.contains(i as usize) by {
            if i < kinds.len() - 1 {
                assert(pre[i] == kinds[i]);
                assert(before.contains(i as usize));
                let k = choose|k: int| 0 <= k < before.len() && before[k] == i as usize;
                assert(r[k] == i as usize);
            } else {
                assert(r[r.len() - 1] == i as usize);
            }
        }
        assert forall|k: int| 0 <= k < r.len() implies {
            let i = #[trigger] r[k];
            &&& i < kinds.len()
            &&& kinds[i as int] == t
        } by {
            if k < before.len() {
                assert(r[k] == before[k]);
                assert(pre[before[k] as int] == kinds[before[k] as int]);
            } else {
                assert(kinds.last() == t);
                assert(r[k] == (kinds.len() - 1) as usize);
            }
        }
    }
}

/// Each light's name, and which lights run on battery: only the headlamp and the
/// floodlight.
pub proof fn lemma_player_light_table()
    ensures
        PlayerLight::Headlamp.spec_name() == "Headlamp"@,
        PlayerLight::Floodlight.spec_name() == "Floodlight"@,
        PlayerLight::Flare.spec_name() == "Flare"@,
        PlayerLight::BioluminescenceGlow.spec_name() == "BioluminescenceGlow"@,
        PlayerLight::Headlamp.spec_uses_battery(),
        PlayerLight::Floodlight.spec_uses_battery(),
        !PlayerLight::Flare.spec_uses_battery(),
        !PlayerLight::BioluminescenceGlow.spec_uses_battery(),
{
}

} // verus!
