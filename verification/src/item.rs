//! Items, equipment slots, and the per-entity inventory.

use vstd::prelude::*;

use crate::stats::StatBonuses;

verus! {

/// The slot an item occupies while equipped.
#[derive(Clone, Copy, Debug, PartialEq, Eq, Structural)]
pub enum Slot {
    HeldMain,
    HeldOff,
    Head,
    Torso,
    Hands,
    Feet,
}

/// A fixed position for each slot; equipped bonuses fold in this order.
pub open spec fn slot_rank(s: Slot) -> int {
    match s {
        Slot::HeldMain => 0,
        Slot::HeldOff => 1,
        Slot::Head => 2,
        Slot::Torso => 3,
        Slot::Hands => 4,
        Slot::Feet => 5,
    }
}

/// The inverse of [`slot_rank`] on `0..6`.
pub open spec fn rank_to_slot(r: int) -> Slot {
    if r == 0 {
        Slot::HeldMain
    } else if r == 1 {
        Slot::HeldOff
    } else if r == 2 {
        Slot::Head
    } else if r == 3 {
        Slot::Torso
    } else if r == 4 {
        Slot::Hands
    } else {
        Slot::Feet
    }
}

/// The slot folded at the given position.
pub fn slot_of_rank(r: usize) -> (s: Slot)
    requires
        r < 6,
    ensures
        s == rank_to_slot(r as int),
        slot_rank(s) == r as int,
{
    match r {
        0 => Slot::HeldMain,
        1 => Slot::HeldOff,
        2 => Slot::Head,
        3 => Slot::Torso,
        4 => Slot::Hands,
        _ => Slot::Feet,
    }
}

/// What an item grants while equipped: the slot it occupies, whether it
/// attacks at range, and its stat bonuses (whose optional base damage is a
/// candidate for the damage profile).
#[derive(Clone, Copy, Debug, PartialEq)]
pub struct Equippable {
    pub slot: Slot,
    pub ranged: bool,
    pub bonuses: StatBonuses,
}

/// One item a combatant carries; only equippable items affect stats.
#[derive(Clone, Copy, Debug, PartialEq)]
pub struct Item {
    pub equippable: Option<Equippable>,
}

/// The items a combatant carries and which of them sit in each slot.
#[derive(Clone, Debug)]
pub struct Inventory {
    items: Vec<Item>,
    held_main: Option<usize>,
    held_off: Option<usize>,
    head: Option<usize>,
    torso: Option<usize>,
    hands: Option<usize>,
    feet: Option<usize>,
}

impl Inventory {
    /// The carried items, in carry order.
    pub closed spec fn items_spec(&self) -> Seq<Item> {
        self.items@
    }

    /// The index of the item equipped in a slot, if any.
    pub closed spec fn equipped_spec(&self, slot: Slot) -> Option<usize> {
        match slot {
            Slot::HeldMain => self.held_main,
            Slot::HeldOff => self.held_off,
            Slot::Head => self.head,
            Slot::Torso => self.torso,
            Slot::Hands => self.hands,
            Slot::Feet => self.feet,
        }
    }

    /// Every equipped index points at a carried item that is equippable in
    /// exactly that slot.
    pub open spec fn wf(&self) -> bool {
        forall|sl: Slot|
            (#[trigger] self.equipped_spec(sl)) is Some ==> {
                let i = self.equipped_spec(sl).unwrap() as int;
                &&& 0 <= i < self.items_spec().len()
                &&& self.items_spec()[i].equippable is Some
                &&& self.items_spec()[i].equippable.unwrap().slot == sl
            }
    }

    /// The item equipped at a slot-fold position, if any.
    pub open spec fn equipped_item(&self, r: int) -> Option<Item> {
        match self.equipped_spec(rank_to_slot(r)) {
            None => None,
            Some(i) => Some(self.items_spec()[i as int]),
        }
    }

    /// An inventory carrying the given items, with nothing equipped yet.
    pub fn new(items: &Vec<Item>) -> (r: Inventory)
        ensures
            r.items_spec() == items@,
            forall|sl: Slot| (#[trigger] r.equipped_spec(sl)) is None,
            r.wf(),
    {
        let n = items.len();
        let mut copied: Vec<Item> = Vec::new();
        let mut i: usize = 0;
        while i < n
            invariant
                i <= n,
                n == items@.len(),
                copied@ =~= items@.take(i as int),
            decreases n - i,
        {
            copied.push(items[i]);
            proof {
                assert(copied@ =~= items@.take(i as int + 1));
            }
            i = i + 1;
        }
        proof {
            assert(items@.take(n as int) =~= items@);
        }
        Inventory {
            items: copied,
            held_main: None,
            held_off: None,
            head: None,
            torso: None,
            hands: None,
            feet: None,
        }
    }

    /// Whether equipping the item at `index` can succeed.
    pub open spec fn equip_ok(&self, index: int) -> bool {
        0 <= index < self.items_spec().len() && self.items_spec()[index].equippable is Some
    }

    /// The inventory after equipping the item at `index`: the item's slot
    /// now holds that index; a failed equip changes nothing.
    pub closed spec fn equip_spec(&self, index: int) -> Inventory {
        if self.equip_ok(index) {
            let slot = self.items_spec()[index].equippable.unwrap().slot;
            match slot {
                Slot::HeldMain => Inventory { held_main: Some(index as usize), ..*self },
                Slot::HeldOff => Inventory { held_off: Some(index as usize), ..*self },
                Slot::Head => Inventory { head: Some(index as usize), ..*self },
                Slot::Torso => Inventory { torso: Some(index as usize), ..*self },
                Slot::Hands => Inventory { hands: Some(index as usize), ..*self },
                Slot::Feet => Inventory { feet: Some(index as usize), ..*self },
            }
        } else {
            *self
        }
    }

    /// Equips the carried item at `index` into its slot, replacing whatever
    /// was there.  Fails, changing nothing, when the index is out of range
    /// or the item cannot be equipped.
    pub fn equip(&mut self, index: usize) -> (ok: bool)
        ensures
            ok == old(self).equip_ok(index as int),
            *final(self) == old(self).equip_spec(index as int),
            final(self).items_spec() == old(self).items_spec(),
            old(self).wf() ==> final(self).wf(),
    {
        if index >= self.items.len() {
            return false;
        }
        let it = self.items[index];
        match it.equippable {
            None => false,
            Some(eq) => {
                match eq.slot {
                    Slot::HeldMain => self.held_main = Some(index),
                    Slot::HeldOff => self.held_off = Some(index),
                    Slot::Head => self.head = Some(index),
                    Slot::Torso => self.torso = Some(index),
                    Slot::Hands => self.hands = Some(index),
                    Slot::Feet => self.feet = Some(index),
                }
                proof {
                    if old(self).wf() {
                        assert forall|sl: Slot| (#[trigger] self.equipped_spec(sl)) is Some implies {
                            let i = self.equipped_spec(sl).unwrap() as int;
                            &&& 0 <= i < self.items_spec().len()
                            &&& self.items_spec()[i].equippable is Some
                            &&& self.items_spec()[i].equippable.unwrap().slot == sl
                        } by {
                            if sl != eq.slot {
                                assert(self.equipped_spec(sl) == old(self).equipped_spec(sl));
                            }
                        }
                    }
                }
                true
            },
        }
    }

    /// The inventory after clearing a slot.
    pub closed spec fn unequip_spec(&self, slot: Slot) -> Inventory {
        match slot {
            Slot::HeldMain => Inventory { held_main: None, ..*self },
            Slot::HeldOff => Inventory { held_off: None, ..*self },
            Slot::Head => Inventory { head: None, ..*self },
            Slot::Torso => Inventory { torso: None, ..*self },
            Slot::Hands => Inventory { hands: None, ..*self },
            Slot::Feet => Inventory { feet: None, ..*self },
        }
    }

    /// Clears a slot.  Fails, changing nothing, when the slot was already
    /// empty.
    pub fn unequip(&mut self, slot: Slot) -> (ok: bool)
        ensures
            ok == old(self).equipped_spec(slot) is Some,
            *final(self) == old(self).unequip_spec(slot),
            final(self).items_spec() == old(self).items_spec(),
            old(self).wf() ==> final(self).wf(),
    {
        let was: bool = match slot {
            Slot::HeldMain => self.held_main.is_some(),
            Slot::HeldOff => self.held_off.is_some(),
            Slot::Head => self.head.is_some(),
            Slot::Torso => self.torso.is_some(),
            Slot::Hands => self.hands.is_some(),
            Slot::Feet => self.feet.is_some(),
        };
        match slot {
            Slot::HeldMain => self.held_main = None,
            Slot::HeldOff => self.held_off = None,
            Slot::Head => self.head = None,
            Slot::Torso => self.torso = None,
            Slot::Hands => self.hands = None,
            Slot::Feet => self.feet = None,
        }
        proof {
            if old(self).wf() {
                assert forall|sl: Slot| (#[trigger] self.equipped_spec(sl)) is Some implies {
                    let i = self.equipped_spec(sl).unwrap() as int;
                    &&& 0 <= i < self.items_spec().len()
                    &&& self.items_spec()[i].equippable is Some
                    &&& self.items_spec()[i].equippable.unwrap().slot == sl
                } by {
                    if sl != slot {
                        assert(self.equipped_spec(sl) == old(self).equipped_spec(sl));
                    }
                }
            }
        }
        was
    }

    /// The item equipped in a slot, if any.
    pub fn get(&self, slot: Slot) -> (r: Option<&Item>)
        requires
            self.wf(),
        ensures
            self.equipped_spec(slot) is None ==> r is None,
            self.equipped_spec(slot) is Some ==> r is Some && *r.unwrap() == self.items_spec()[
                self.equipped_spec(slot).unwrap() as int
            ],
    {
        let idx: Option<usize> = match slot {
            Slot::HeldMain => self.held_main,
            Slot::HeldOff => self.held_off,
            Slot::Head => self.head,
            Slot::Torso => self.torso,
            Slot::Hands => self.hands,
            Slot::Feet => self.feet,
        };
        match idx {
            None => None,
            Some(i) => Some(&self.items[i]),
        }
    }

    /// How many items are carried.
    pub fn len(&self) -> (r: usize)
        ensures
            r == self.items_spec().len(),
    {
        self.items.len()
    }
}

} // verus!
