//! The game systems that the frame profiler times.

use vstd::prelude::*;

verus! {

/// Names of systems that can be profiled.
#[derive(Debug, Clone, Copy, PartialEq, Eq, Hash, Structural)]
pub enum SystemName {
    Oxygen,
    Pressure,
    Creatures,
    Particles,
    AI,
    WorldGeneration,
    Network,
    Rendering,
    Physics,
    Audio,
}

/// The ten systems in reporting order.
pub open spec fn spec_all_systems() -> Seq<SystemName> {
    seq![
        SystemName::Oxygen,
        SystemName::Pressure,
        SystemName::Creatures,
        SystemName::Particles,
        SystemName::AI,
        SystemName::WorldGeneration,
        SystemName::Network,
        SystemName::Rendering,
        SystemName::Physics,
        SystemName::Audio,
    ]
}

impl SystemName {
    /// Returns all system names.
    pub fn all() -> (r: &'static [SystemName])
        ensures
            r@ == spec_all_systems(),
    {
        &[
            SystemName::Oxygen,
            SystemName::Pressure,
            SystemName::Creatures,
            SystemName::Particles,
            SystemName::AI,
            SystemName::WorldGeneration,
            SystemName::Network,
            SystemName::Rendering,
            SystemName::Physics,
            SystemName::Audio,
        ]
    }
}

/// The list of systems names every system exactly once.
pub proof fn lemma_all_systems_once(s: SystemName)
    ensures
        spec_all_systems().contains(s),
        spec_all_systems().no_duplicates(),
        spec_all_systems().len() == 10,
{
    let a = spec_all_systems();
    match s {
        SystemName::Oxygen => assert(a[0] == s),
        SystemName::Pressure => assert(a[1] == s),
        SystemName::Creatures => assert(a[2] == s),
        SystemName::Particles => assert(a[3] == s),
        SystemName::AI => assert(a[4] == s),
        SystemName::WorldGeneration => assert(a[5] == s),
        SystemName::Network => assert(a[6] == s),
        SystemName::Rendering => assert(a[7] == s),
        SystemName::Physics => assert(a[8] == s),
        SystemName::Audio => assert(a[9] == s),
    }
}

/// A count that went over its budget limit.
#[derive(Debug, Clone, Copy, PartialEq, Eq, Structural)]
pub enum LimitViolation {
    /// Particle count exceeded the limit (actual, max).
    ParticleLimitExceeded { actual: u32, max: u32 },
    /// Creature count exceeded the limit (actual, max).
    CreatureLimitExceeded { actual: u32, max: u32 },
}

/// The count limits broken by a frame, particles first, then creatures.
pub open spec fn spec_limit_violations(
    particle_count: u32,
    max_particle_count: u32,
    creature_count: u32,
    max_creatures: u32,
) -> Seq<LimitViolation> {
    let p: Seq<LimitViolation> = if particle_count > max_particle_count {
        seq![LimitViolation::ParticleLimitExceeded { actual: particle_count, max: max_particle_count }]
    } else {
        Seq::empty()
    };
    let c: Seq<LimitViolation> = if creature_count > max_creatures {
        seq![LimitViolation::CreatureLimitExceeded { actual: creature_count, max: max_creatures }]
    } else {
        Seq::empty()
    };
    p + c
}

/// Checks the particle and creature counts of a frame against their limits.
pub fn limit_violations(
    particle_count: u32,
    max_particle_count: u32,
    creature_count: u32,
    max_creatures: u32,
) -> (r: Vec<LimitViolation>)
    ensures
        r@ == spec_limit_violations(particle_count, max_particle_count, creature_count, max_creatures),
{
    let mut violations: Vec<LimitViolation> = Vec::new();
    if particle_count > max_particle_count {
        violations.push(LimitViolation::ParticleLimitExceeded { actual: particle_count, max: max_particle_count });
    }
    if creature_count > max_creatures {
        violations.push(LimitViolation::CreatureLimitExceeded { actual: creature_count, max: max_creatures });
    }
    assert(violations@ =~= spec_limit_violations(particle_count, max_particle_count, creature_count, max_creatures));
    violations
}

/// A frame within both limits reports nothing, each reported violation names a
/// count that really is over its limit, and every count over its limit is
/// reported, particles before creatures.
pub proof fn lemma_limit_violations_sound(pc: u32, pm: u32, cc: u32, cm: u32)
    ensures
        (pc <= pm && cc <= cm) ==> spec_limit_violations(pc, pm, cc, cm).len() == 0,
        spec_limit_violations(pc, pm, cc, cm).len()
            == (if pc > pm { 1int } else { 0int }) + (if cc > cm { 1int } else { 0int }),
        pc > pm ==> spec_limit_violations(pc, pm, cc, cm)[0]
            == (LimitViolation::ParticleLimitExceeded { actual: pc, max: pm }),
        cc > cm ==> spec_limit_violations(pc, pm, cc, cm).last()
            == (LimitViolation::CreatureLimitExceeded { actual: cc, max: cm }),
        forall|k: int| 0 <= k < spec_limit_violations(pc, pm, cc, cm).len() ==>
            match #[trigger] spec_limit_violations(pc, pm, cc, cm)[k] {
                LimitViolation::ParticleLimitExceeded { actual, max } => actual == pc && max == pm && pc > pm,
                LimitViolation::CreatureLimitExceeded { actual, max } => actual == cc && max == cm && cc > cm,
            },
{
}

/// The rolling window of a frame timer: which slot of its circular buffer the
/// next frame time goes to, and how many frames the buffer holds.
#[derive(Debug)]
pub struct FrameWindow {
    /// Maximum number of frames to track.
    max_frames: usize,
    /// Current index in the circular buffer.
    index: usize,
    /// Number of frames recorded.
    count: usize,
}

impl FrameWindow {
    /// Size of the window.
    pub closed spec fn spec_max(&self) -> usize {
        self.max_frames
    }

    /// Slot the next frame is written to.
    pub closed spec fn spec_index(&self) -> usize {
        self.index
    }

    /// Frames currently held.
    pub closed spec fn spec_count(&self) -> usize {
        self.count
    }

    /// The next slot lies inside the buffer, and the buffer never holds more
    /// frames than it has slots.
    #[verifier::type_invariant]
    closed spec fn inv(&self) -> bool {
        &&& self.count <= self.max_frames
        &&& (self.max_frames > 0 ==> self.index < self.max_frames)
        &&& (self.max_frames == 0 ==> self.index == 0)
    }

    /// A window of `window_size` frames with nothing recorded.
    pub fn new(window_size: usize) -> (r: Self)
        ensures
            r.spec_max() == window_size,
            r.spec_index() == 0,
            r.spec_count() == 0,
    {
        FrameWindow { max_frames: window_size, index: 0, count: 0 }
    }

    /// Record one frame: returns the slot its time is stored in; the next slot
    /// wraps around the buffer, and the count grows until the buffer is full.
    pub fn record(&mut self) -> (slot: usize)
        requires
            old(self).spec_max() > 0,
        ensures
            slot == old(self).spec_index(),
            slot < old(self).spec_max(),
            final(self).spec_max() == old(self).spec_max(),
            final(self).spec_index() == (old(self).spec_index() + 1) % (old(self).spec_max() as int),
            final(self).spec_count() == vstd::math::min(old(self).spec_count() + 1, old(self).spec_max() as int),
    {
        proof { use_type_invariant(&*self); }
        let slot = self.index;
        let next = (self.index + 1) % self.max_frames;
        let count = if self.count < self.max_frames { self.count + 1 } else { self.count };
        *self = FrameWindow { max_frames: self.max_frames, index: next, count };
        slot
    }

    /// Returns the number of frames recorded, at most the window size.
    pub fn frame_count(&self) -> (r: usize)
        ensures
            r == self.spec_count(),
            r <= self.spec_max(),
    {
        proof { use_type_invariant(self); }
        self.count
    }

    /// Size of the window.
    pub fn max_frames(&self) -> (r: usize)
        ensures
            r == self.spec_max(),
    {
        self.max_frames
    }
}

impl Clone for FrameWindow {
    fn clone(&self) -> (r: Self)
        ensures
            r.spec_max() == self.spec_max(),
            r.spec_index() == self.spec_index(),
            r.spec_count() == self.spec_count(),
    {
        proof { use_type_invariant(self); }
        FrameWindow { max_frames: self.max_frames, index: self.index, count: self.count }
    }
}

/// After `n` frames a window of `max` slots holds `min(n, max)` of them and writes
/// the next one at slot `n mod max`: each recorded frame keeps this true.
pub proof fn lemma_window_after_frames(max: int, n: int, index: int, count: int)
    requires
        max > 0,
        n >= 0,
        index == n % max,
        count == vstd::math::min(n, max),
    ensures
        (index + 1) % max == (n + 1) % max,
        vstd::math::min(count + 1, max) == vstd::math::min(n + 1, max),
{
    vstd::arithmetic::div_mod::lemma_add_mod_noop(n, 1, max);
    vstd::arithmetic::div_mod::lemma_mod_twice(index + 1, max);
    vstd::arithmetic::div_mod::lemma_add_mod_noop(index, 1, max);
    vstd::arithmetic::div_mod::lemma_mod_twice(n, max);
}

} // verus!
