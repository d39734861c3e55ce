//! Oxygen refill sources and oxygen tank slots.

use vstd::prelude::*;

verus! {

/// Maximum number of equipped tanks.
pub const MAX_TANKS: usize = 3;

/// Source of oxygen refill.
#[derive(Debug, Clone, Copy, PartialEq, Eq, Structural)]
pub enum OxygenRefillSource {
    /// Surface - full refill.
    Surface,
    /// Air pocket in cave - partial refill.
    AirPocket,
    /// Oxygen plant - small refill.
    OxygenPlant,
}

/// Tank equipment slot index.
#[derive(Debug, Clone, Copy, PartialEq, Eq, Structural)]
pub struct TankSlot(pub usize);

impl TankSlot {
    /// First tank slot.
    pub fn slot_0() -> (r: TankSlot)
        ensures
            r == TankSlot(0),
    {
        TankSlot(0)
    }

    /// Second tank slot.
    pub fn slot_1() -> (r: TankSlot)
        ensures
            r == TankSlot(1),
    {
        TankSlot(1)
    }

    /// Third tank slot.
    pub fn slot_2() -> (r: TankSlot)
        ensures
            r == TankSlot(2),
    {
        TankSlot(2)
    }

    /// Whether the slot is one of the equipment slots, below [`MAX_TANKS`].
    pub fn is_valid(&self) -> (r: bool)
        ensures
            r == (self.0 < MAX_TANKS),
    {
        self.0 < MAX_TANKS
    }

    /// All valid slot indices, in order.
    pub fn all() -> (r: Vec<TankSlot>)
        ensures
            r@ == seq![TankSlot(0), TankSlot(1), TankSlot(2)],
            r@.len() == MAX_TANKS,
    {
        vec![TankSlot(0), TankSlot(1), TankSlot(2)]
    }
}

/// The player's oxygen tank slots: each of the [`MAX_TANKS`] slots is empty or
/// holds a tank, together with whether that tank was equipped when it was put in.
#[derive(Debug, Clone)]
pub struct TankSlots<T> {
    /// One entry per slot.
    slots: Vec<Option<(T, bool)>>,
}

impl<T> View for TankSlots<T> {
    type V = Seq<Option<(T, bool)>>;

    closed spec fn view(&self) -> Seq<Option<(T, bool)>> {
        self.slots@
    }
}

/// How many of the slots hold an equipped tank.
pub open spec fn spec_equipped_count<T>(slots: Seq<Option<(T, bool)>>) -> nat
    decreases slots.len(),
{
    if slots.len() == 0 {
        0
    } else {
        spec_equipped_count(slots.drop_last()) + match slots.last() {
            Some(entry) => if entry.1 { 1nat } else { 0nat },
            None => 0nat,
        }
    }
}

impl<T> TankSlots<T> {
    /// The manager always has exactly [`MAX_TANKS`] slots.
    pub open spec fn wf(&self) -> bool {
        self@.len() == MAX_TANKS
    }

    /// Create a new tank manager with no tanks equipped.
    pub fn new() -> (r: Self)
        ensures
            r.wf(),
            forall|i: int| 0 <= i < MAX_TANKS ==> r@[i] is None,
    {
        let mut slots: Vec<Option<(T, bool)>> = Vec::new();
        slots.push(None);
        slots.push(None);
        slots.push(None);
        TankSlots { slots }
    }

    /// Put a tank in `slot`, returning the tank that was there before, if any.
    /// A tank for a slot outside the manager is handed straight back.
    pub fn equip_tank(&mut self, slot: TankSlot, equipped: bool, tank: T) -> (r: Option<T>)
        requires
            old(self).wf(),
        ensures
            final(self).wf(),
            slot.0 >= MAX_TANKS ==> r == Some(tank) && final(self)@ == old(self)@,
            slot.0 < MAX_TANKS ==> {
                &&& final(self)@ == old(self)@.update(slot.0 as int, Some((tank, equipped)))
                &&& r == match old(self)@[slot.0 as int] {
                    Some(entry) => Some(entry.0),
                    None => None::<T>,
                }
            },
    {
        if slot.0 >= MAX_TANKS {
            return Some(tank);
        }
        let previous = self.slots.remove(slot.0);
        self.slots.insert(slot.0, Some((tank, equipped)));
        assert(self@ =~= old(self)@.update(slot.0 as int, Some((tank, equipped))));
        match previous {
            Some(entry) => Some(entry.0),
            None => None,
        }
    }

    /// Take the tank out of `slot`, leaving it empty.
    pub fn unequip_slot(&mut self, slot: TankSlot) -> (r: Option<T>)
        requires
            old(self).wf(),
        ensures
            final(self).wf(),
            slot.0 >= MAX_TANKS ==> r is None && final(self)@ == old(self)@,
            slot.0 < MAX_TANKS ==> {
                &&& final(self)@ == old(self)@.update(slot.0 as int, None)
                &&& r == match old(self)@[slot.0 as int] {
                    Some(entry) => Some(entry.0),
                    None => None::<T>,
                }
            },
    {
        if slot.0 >= MAX_TANKS {
            return None;
        }
        let previous = self.slots.remove(slot.0);
        self.slots.insert(slot.0, None);
        assert(self@ =~= old(self)@.update(slot.0 as int, None));
        match previous {
            Some(entry) => Some(entry.0),
            None => None,
        }
    }

    /// Get the tank in the given slot.
    pub fn get(&self, slot: TankSlot) -> (r: Option<&T>)
        requires
            self.wf(),
        ensures
            slot.0 >= MAX_TANKS ==> r is None,
            slot.0 < MAX_TANKS ==> r == match self@[slot.0 as int] {
                Some(entry) => Some(&entry.0),
                None => None::<&T>,
            },
    {
        if slot.0 >= MAX_TANKS {
            return None;
        }
        match &self.slots[slot.0] {
            Some(entry) => Some(&entry.0),
            None => None,
        }
    }

    /// Number of equipped tanks.
    pub fn equipped_count(&self) -> (r: usize)
        requires
            self.wf(),
        ensures
            r == spec_equipped_count(self@),
            r <= MAX_TANKS,
    {
        let mut n: usize = 0;
        let mut i: usize = 0;
        while i < self.slots.len()
            invariant
                self.wf(),
                i <= self.slots.len(),
                n == spec_equipped_count(self@.take(i as int)),
                n <= i,
            decreases self.slots.len() - i,
        {
            assert(self@.take((i + 1) as int).drop_last() =~= self@.take(i as int));
            match &self.slots[i] {
                Some(entry) => {
                    if entry.1 {
                        n = n + 1;
                    }
                },
                None => {},
            }
            i = i + 1;
        }
        assert(self@.take(self.slots.len() as int) =~= self@);
        n
    }

    /// Check if a slot is occupied.
    pub fn slot_occupied(&self, slot: TankSlot) -> (r: bool)
        requires
            self.wf(),
        ensures
            r == (slot.0 < MAX_TANKS && self@[slot.0 as int] is Some),
    {
        if slot.0 >= MAX_TANKS {
            return false;
        }
        self.slots[slot.0].is_some()
    }

    /// Check if all slots are full.
    pub fn all_slots_full(&self) -> (r: bool)
        requires
            self.wf(),
        ensures
            r == forall|i: int| 0 <= i < MAX_TANKS ==> self@[i] is Some,
    {
        self.slots[0].is_some() && self.slots[1].is_some() && self.slots[2].is_some()
    }
}

/// What a slot gives back is what was last put in it: equipping a tank and then
/// reading or emptying that slot yields that tank, other slots are untouched, and
/// an emptied slot reads as empty.
pub proof fn lemma_slot_read_back<T>(slots: Seq<Option<(T, bool)>>, i: int, j: int, tank: T, equipped: bool)
    requires
        slots.len() == MAX_TANKS,
        0 <= i < MAX_TANKS,
        0 <= j < MAX_TANKS,
        i != j,
    ensures
        slots.update(i, Some((tank, equipped)))[i] == Some((tank, equipped)),
        slots.update(i, Some((tank, equipped)))[j] == slots[j],
        slots.update(i, Some((tank, equipped))).update(i, None)[i] is None,
        slots.update(i, None::<(T, bool)>)[j] == slots[j],
{
}

/// At most [`MAX_TANKS`] tanks are equipped, and equipping a tank into an empty
/// slot raises the count by one exactly when the tank is equipped.
pub proof fn lemma_equipped_count_bounds<T>(slots: Seq<Option<(T, bool)>>, i: int, tank: T, equipped: bool)
    requires
        0 <= i < slots.len(),
        slots[i] is None,
    ensures
        spec_equipped_count(slots) <= slots.len(),
        spec_equipped_count(slots.update(i, Some((tank, equipped))))
            == spec_equipped_count(slots) + if equipped { 1nat } else { 0nat },
    decreases slots.len(),
{
    lemma_equipped_count_le(slots);
    let s2 = slots.update(i, Some((tank, equipped)));
    if i == slots.len() - 1 {
        assert(s2.drop_last() =~= slots.drop_last());
    } else {
        assert(s2.drop_last() =~= slots.drop_last().update(i, Some((tank, equipped))));
        lemma_equipped_count_bounds(slots.drop_last(), i, tank, equipped);
    }
}

/// The equipped count never exceeds the number of slots.
proof fn lemma_equipped_count_le<T>(slots: Seq<Option<(T, bool)>>)
    ensures
        spec_equipped_count(slots) <= slots.len(),
    decreases slots.len(),
{
    if slots.len() > 0 {
        lemma_equipped_count_le(slots.drop_last());
    }
}

} // verus!
