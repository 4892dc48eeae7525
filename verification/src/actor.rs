//! Per-entity mutable state: hit points, action points, inventory, the
//! derived-stat snapshot, and change notification for observers.

use vstd::prelude::*;

use crate::damage::{created_components, Damage};
use crate::item::{Inventory, Item, Slot};
use crate::num::{lemma_filter_take_step, sat_add, sat_add_spec, sat_mul, sat_mul_spec, sat_sub,
    sat_sub_spec};
use crate::rules::{lemma_pick_damage_wf, pick_damage, Rules};
use crate::stats::{apply_bonuses, default_stats, sb_scale, AttributeList, StatList};

verus! {

/// A combatant's race: its innate stat contribution, whose optional base
/// damage is the unarmed damage fallback.
#[derive(Clone, Copy, Debug)]
pub struct Race {
    pub base_stats: crate::stats::StatBonuses,
}

/// A class a combatant levels in: the growth gained per level.
#[derive(Clone, Copy, Debug)]
pub struct Class {
    pub bonuses_per_level: crate::stats::StatBonuses,
}

/// The immutable template an entity is created from.
#[derive(Clone, Debug)]
pub struct Actor {
    pub race: Race,
    pub levels: Vec<(Class, u32)>,
    pub items: Vec<Item>,
    pub to_equip: Vec<usize>,
}

/// An item's damage candidate, when it has one, is an ordered range.
pub open spec fn item_damage_ok(it: Item) -> bool {
    (it.equippable is Some && it.equippable.unwrap().bonuses.base_damage is Some)
        ==> it.equippable.unwrap().bonuses.base_damage.unwrap().min
        <= it.equippable.unwrap().bonuses.base_damage.unwrap().max
}

/// Every damage candidate the template can contribute is an ordered range.
pub open spec fn actor_data_ok(a: Actor) -> bool {
    &&& forall|i: int| 0 <= i < a.items@.len() ==> item_damage_ok(#[trigger] a.items@[i])
    &&& (a.race.base_stats.base_damage is Some ==> a.race.base_stats.base_damage.unwrap().min
        <= a.race.base_stats.base_damage.unwrap().max)
}

/// Registered observers of one actor's state, notified synchronously after
/// each mutation.  Registrations are ids; they are not owning references,
/// so a listener never keeps its subject alive.  A mutation raises the
/// pending flag; the embedding drains it and invokes the real callbacks.
#[derive(Clone, Debug)]
pub struct ChangeListenerList {
    ids: Vec<u64>,
    pending: bool,
}

impl ChangeListenerList {
    pub closed spec fn ids_spec(&self) -> Seq<u64> {
        self.ids@
    }

    pub closed spec fn pending_spec(&self) -> bool {
        self.pending
    }

    /// No listeners, nothing pending.
    pub fn new() -> (r: ChangeListenerList)
        ensures
            r.ids_spec().len() == 0,
            !r.pending_spec(),
    {
        ChangeListenerList { ids: Vec::new(), pending: false }
    }

    /// Registers a listener id.
    pub fn add(&mut self, id: u64)
        ensures
            final(self).ids_spec() == old(self).ids_spec().push(id),
            final(self).pending_spec() == old(self).pending_spec(),
    {
        self.ids.push(id);
    }

    /// Removes every registration with the given id.
    pub fn remove(&mut self, id: u64)
        ensures
            final(self).ids_spec() == old(self).ids_spec().filter(|x: u64| x != id),
            final(self).pending_spec() == old(self).pending_spec(),
    {
        let n = self.ids.len();
        let mut kept: Vec<u64> = Vec::new();
        let mut i: usize = 0;
        proof {
            assert(self.ids@.take(0).filter(|x: u64| x != id) =~= Seq::<u64>::empty());
        }
        while i < n
            invariant
                i <= n,
                n == self.ids@.len(),
                self.ids@ == old(self).ids_spec(),
                self.pending == old(self).pending_spec(),
                kept@ == self.ids@.take(i as int).filter(|x: u64| x != id),
            decreases n - i,
        {
            let x = self.ids[i];
            proof {
                lemma_filter_take_step(self.ids@, |x: u64| x != id, i as int);
            }
            if x != id {
                kept.push(x);
            }
            i = i + 1;
        }
        proof {
            assert(self.ids@.take(n as int) =~= self.ids@);
        }
        self.ids = kept;
    }

    /// Marks that the subject changed; observers are owed a callback.
    pub fn notify(&mut self)
        ensures
            final(self).pending_spec(),
            final(self).ids_spec() == old(self).ids_spec(),
    {
        self.pending = true;
    }

    /// Hands the pending flag to the embedding and clears it.
    pub fn take_pending(&mut self) -> (was: bool)
        ensures
            was == old(self).pending_spec(),
            !final(self).pending_spec(),
            final(self).ids_spec() == old(self).ids_spec(),
    {
        let was = self.pending;
        self.pending = false;
        was
    }
}

impl Default for ChangeListenerList {
    /// No listeners, nothing pending.
    fn default() -> (r: ChangeListenerList)
        ensures
            r.ids_spec().len() == 0,
            !r.pending_spec(),
    {
        ChangeListenerList::new()
    }
}

/// The inventory after equipping each of the first `i` requested indices in
/// order.
pub open spec fn equip_fold(inv: Inventory, idxs: Seq<usize>, i: int) -> Inventory
    decreases i,
{
    if i <= 0 {
        inv
    } else {
        equip_fold(inv, idxs, i - 1).equip_spec(idxs[i - 1] as int)
    }
}

/// The snapshot after folding in the first `i` class levels.
pub open spec fn apply_levels(s: StatList, levels: Seq<(Class, u32)>, i: int) -> StatList
    decreases i,
{
    if i <= 0 {
        s
    } else {
        apply_bonuses(
            apply_levels(s, levels, i - 1),
            sb_scale(levels[i - 1].0.bonuses_per_level, levels[i - 1].1),
        )
    }
}

/// The snapshot after folding in the bonuses of the items equipped in the
/// first `r` slots.
pub open spec fn apply_items(s: StatList, inv: Inventory, r: int) -> StatList
    decreases r,
{
    if r <= 0 {
        s
    } else {
        let prev = apply_items(s, inv, r - 1);
        match inv.equipped_item(r - 1) {
            None => prev,
            Some(it) => match it.equippable {
                None => prev,
                Some(eq) => apply_bonuses(prev, eq.bonuses),
            },
        }
    }
}

/// The damage candidates contributed by the items equipped in the first `r`
/// slots, in slot order.
pub open spec fn cands_upto(inv: Inventory, r: int) -> Seq<Damage>
    decreases r,
{
    if r <= 0 {
        Seq::empty()
    } else {
        let prev = cands_upto(inv, r - 1);
        match inv.equipped_item(r - 1) {
            None => prev,
            Some(it) => match it.equippable {
                None => prev,
                Some(eq) => match eq.bonuses.base_damage {
                    None => prev,
                    Some(d) => prev.push(d),
                },
            },
        }
    }
}

/// The full candidate list for the damage profile: one candidate per
/// equipped item that defines one; the race's innate damage only when no
/// equipped item contributes.
pub open spec fn damage_candidates(inv: Inventory, race_bd: Option<Damage>) -> Seq<Damage> {
    let c = cands_upto(inv, 6);
    if c.len() > 0 {
        c
    } else {
        match race_bd {
            None => Seq::empty(),
            Some(d) => seq![d],
        }
    }
}

/// Whether the entity attacks in melee: it does unless the main hand holds
/// a ranged weapon.
pub open spec fn melee_of(inv: Inventory) -> bool {
    match inv.equipped_item(0) {
        None => true,
        Some(it) => match it.equippable {
            None => true,
            Some(eq) => !eq.ranged,
        },
    }
}

pub proof fn lemma_cands_wf(inv: Inventory, r: int)
    requires
        inv.wf(),
        0 <= r <= 6,
        forall|i: int|
            0 <= i < inv.items_spec().len() ==> item_damage_ok(#[trigger] inv.items_spec()[i]),
    ensures
        forall|i: int|
            0 <= i < cands_upto(inv, r).len() ==> (#[trigger] cands_upto(inv, r)[i]).min
                <= cands_upto(inv, r)[i].max,
    decreases r,
{
    if r > 0 {
        lemma_cands_wf(inv, r - 1);
        let sl = crate::item::rank_to_slot(r - 1);
        if inv.equipped_spec(sl) is Some {
            assert(item_damage_ok(inv.items_spec()[inv.equipped_spec(sl).unwrap() as int]));
        }
    }
}

/// Every candidate in the full list is an ordered range.
pub proof fn lemma_candidates_wf(inv: Inventory, race_bd: Option<Damage>)
    requires
        inv.wf(),
        forall|i: int|
            0 <= i < inv.items_spec().len() ==> item_damage_ok(#[trigger] inv.items_spec()[i]),
        race_bd is Some ==> race_bd.unwrap().min <= race_bd.unwrap().max,
    ensures
        forall|i: int|
            0 <= i < damage_candidates(inv, race_bd).len() ==> (#[trigger] damage_candidates(
                inv,
                race_bd,
            )[i]).min <= damage_candidates(inv, race_bd)[i].max,
{
    lemma_cands_wf(inv, 6);
}

/// Per-entity mutable state: the template it was created from, base
/// attributes, the derived-stat snapshot, observers, hit and action points,
/// and the inventory.
#[derive(Clone, Debug)]
pub struct ActorState {
    pub actor: Actor,
    pub attributes: AttributeList,
    pub stats: StatList,
    pub listeners: ChangeListenerList,
    pub hp: i32,
    pub ap: u32,
    pub overflow_ap: i32,
    pub xp: u32,
    pub inventory: Inventory,
}

impl ActorState {
    pub open spec fn hp_spec(&self) -> i32 {
        self.hp
    }

    pub open spec fn ap_spec(&self) -> u32 {
        self.ap
    }

    pub open spec fn overflow_ap_spec(&self) -> i32 {
        self.overflow_ap
    }

    pub open spec fn xp_spec(&self) -> u32 {
        self.xp
    }

    pub open spec fn inventory_spec(&self) -> Inventory {
        self.inventory
    }

    /// Hit points never go negative; the inventory stays consistent; the
    /// damage profile and the template's damage data stay ordered.
    pub open spec fn wf(&self) -> bool {
        &&& self.hp_spec() >= 0
        &&& self.stats.damage.wf()
        &&& self.inventory_spec().wf()
        &&& forall|i: int|
            0 <= i < self.inventory_spec().items_spec().len() ==> item_damage_ok(
                #[trigger] self.inventory_spec().items_spec()[i],
            )
        &&& (self.actor.race.base_stats.base_damage is Some
            ==> self.actor.race.base_stats.base_damage.unwrap().min
            <= self.actor.race.base_stats.base_damage.unwrap().max)
    }

    /// A fresh actor state: the template's items are carried, the requested
    /// indices are equipped in order, and everything else starts at zero.
    /// Stats are not computed yet.
    pub fn new(actor: Actor) -> (r: ActorState)
        requires
            actor_data_ok(actor),
        ensures
            r.wf(),
            r.actor == actor,
            r.hp_spec() == 0,
            r.ap_spec() == 0,
            r.overflow_ap_spec() == 0,
            r.xp_spec() == 0,
            default_stats(r.stats),
            r.listeners.ids_spec().len() == 0,
            !r.listeners.pending_spec(),
            r.inventory_spec().items_spec() == actor.items@,
            exists|inv0: Inventory|
                {
                    &&& #[trigger] inv0.items_spec() == actor.items@
                    &&& forall|sl: Slot| (#[trigger] inv0.equipped_spec(sl)) is None
                    &&& r.inventory_spec() == equip_fold(
                        inv0,
                        actor.to_equip@,
                        actor.to_equip@.len() as int,
                    )
                },
    {
        let mut inventory = Inventory::new(&actor.items);
        let ghost inv0 = inventory;
        let n = actor.to_equip.len();
        let mut i: usize = 0;
        while i < n
            invariant
                i <= n,
                n == actor.to_equip@.len(),
                inventory == equip_fold(inv0, actor.to_equip@, i as int),
                inventory.items_spec() == inv0.items_spec(),
                inventory.wf(),
            decreases n - i,
        {
            let idx = actor.to_equip[i];
            inventory.equip(idx);
            i = i + 1;
        }
        ActorState {
            actor,
            attributes: AttributeList::default(),
            stats: StatList::default(),
            listeners: ChangeListenerList::new(),
            hp: 0,
            ap: 0,
            overflow_ap: 0,
            xp: 0,
            inventory,
        }
    }

    /// Current hit points.
    pub fn hp(&self) -> (r: i32)
        ensures
            r == self.hp_spec(),
    {
        self.hp
    }

    /// Current action points.
    pub fn ap(&self) -> (r: u32)
        ensures
            r == self.ap_spec(),
    {
        self.ap
    }

    /// Accumulated experience points.
    pub fn xp(&self) -> (r: u32)
        ensures
            r == self.xp_spec(),
    {
        self.xp
    }

    /// The overflow action points side channel scripts may read and write.
    pub fn overflow_ap(&self) -> (r: i32)
        ensures
            r == self.overflow_ap_spec(),
    {
        self.overflow_ap
    }

    /// The inventory, for reading.
    pub fn inventory(&self) -> (r: &Inventory)
        ensures
            *r == self.inventory_spec(),
    {
        &self.inventory
    }

    /// Dead means out of hit points.
    pub fn is_dead(&self) -> (r: bool)
        ensures
            r == (self.hp_spec() <= 0),
    {
        self.hp <= 0
    }

    /// Whether a target at the given distance is within melee reach.
    pub fn can_reach(&self, dist: u32) -> (r: bool)
        ensures
            r == (dist < self.stats.reach),
    {
        dist < self.stats.reach
    }

    /// Whether an attack can be made against a target at the given
    /// distance: there must be enough action points for one attack, and the
    /// target must be within reach.
    pub fn can_attack(&self, rules: &Rules, dist: u32) -> (r: bool)
        ensures
            r == (self.ap_spec() >= rules.attack_ap && dist < self.stats.reach),
    {
        if self.ap < rules.attack_ap {
            return false;
        }
        self.can_reach(dist)
    }

    /// Whether one more attack can be paid for this turn.
    pub fn has_ap_to_attack(&self, rules: &Rules) -> (r: bool)
        ensures
            r == (self.ap_spec() >= rules.attack_ap),
    {
        self.ap >= rules.attack_ap
    }

    /// The action points a move of `squares` squares costs.
    pub fn get_move_ap_cost(&self, rules: &Rules, squares: u32) -> (r: u32)
        ensures
            r == sat_mul_spec(rules.movement_ap as int, squares as int),
    {
        sat_mul(rules.movement_ap, squares)
    }

    /// Spends action points, never below zero, and notifies observers.
    pub fn remove_ap(&mut self, amount: u32)
        ensures
            final(self).ap_spec() == sat_sub_spec(old(self).ap_spec() as int, amount as int),
            final(self).listeners.pending_spec(),
            final(self).listeners.ids_spec() == old(self).listeners.ids_spec(),
            final(self).hp_spec() == old(self).hp_spec(),
            final(self).overflow_ap_spec() == old(self).overflow_ap_spec(),
            final(self).xp_spec() == old(self).xp_spec(),
            final(self).inventory_spec() == old(self).inventory_spec(),
            final(self).actor == old(self).actor,
            final(self).attributes == old(self).attributes,
            final(self).stats == old(self).stats,
            old(self).wf() ==> final(self).wf(),
    {
        self.ap = sat_sub(self.ap, amount);
        self.listeners.notify();
    }

    /// Removes hit points, never below zero, and notifies observers.
    pub fn remove_hp(&mut self, amount: u32)
        requires
            old(self).hp_spec() >= 0,
        ensures
            final(self).hp_spec() == if amount as int > old(self).hp_spec() as int {
                0int
            } else {
                old(self).hp_spec() - amount
            },
            final(self).hp_spec() >= 0,
            final(self).listeners.pending_spec(),
            final(self).listeners.ids_spec() == old(self).listeners.ids_spec(),
            final(self).ap_spec() == old(self).ap_spec(),
            final(self).overflow_ap_spec() == old(self).overflow_ap_spec(),
            final(self).xp_spec() == old(self).xp_spec(),
            final(self).inventory_spec() == old(self).inventory_spec(),
            final(self).actor == old(self).actor,
            final(self).attributes == old(self).attributes,
            final(self).stats == old(self).stats,
            old(self).wf() ==> final(self).wf(),
    {
        if amount as i64 > self.hp as i64 {
            self.hp = 0;
        } else {
            self.hp = (self.hp as i64 - amount as i64) as i32;
        }
        self.listeners.notify();
    }

    /// Restores hit points, never above the snapshot's maximum, and
    /// notifies observers.
    pub fn add_hp(&mut self, amount: u32)
        requires
            old(self).hp_spec() >= 0,
        ensures
            final(self).hp_spec() == {
                let cap = if old(self).stats.max_hp > i32::MAX as u32 {
                    i32::MAX as int
                } else {
                    old(self).stats.max_hp as int
                };
                if old(self).hp_spec() + amount > cap {
                    cap
                } else {
                    old(self).hp_spec() + amount
                }
            },
            final(self).hp_spec() >= 0,
            old(self).wf() ==> final(self).wf(),
            final(self).listeners.pending_spec(),
            final(self).listeners.ids_spec() == old(self).listeners.ids_spec(),
            final(self).ap_spec() == old(self).ap_spec(),
            final(self).overflow_ap_spec() == old(self).overflow_ap_spec(),
            final(self).xp_spec() == old(self).xp_spec(),
            final(self).inventory_spec() == old(self).inventory_spec(),
            final(self).actor == old(self).actor,
            final(self).attributes == old(self).attributes,
            final(self).stats == old(self).stats,
    {
        let cap: i64 = if self.stats.max_hp > i32::MAX as u32 {
            i32::MAX as i64
        } else {
            self.stats.max_hp as i64
        };
        let raised: i64 = self.hp as i64 + amount as i64;
        if raised > cap {
            self.hp = cap as i32;
        } else {
            self.hp = raised as i32;
        }
        self.listeners.notify();
    }

    /// Adds experience, saturating.
    pub fn add_xp(&mut self, amount: u32)
        ensures
            final(self).xp_spec() == sat_add_spec(old(self).xp_spec() as int, amount as int),
            final(self).hp_spec() == old(self).hp_spec(),
            final(self).ap_spec() == old(self).ap_spec(),
            final(self).overflow_ap_spec() == old(self).overflow_ap_spec(),
            final(self).inventory_spec() == old(self).inventory_spec(),
            final(self).actor == old(self).actor,
            final(self).attributes == old(self).attributes,
            final(self).stats == old(self).stats,
            final(self).listeners == old(self).listeners,
    {
        self.xp = sat_add(self.xp, amount);
    }

    /// Shifts the overflow action points side channel, clamped to what the
    /// type holds.
    pub fn change_overflow_ap(&mut self, delta: i32)
        ensures
            final(self).overflow_ap_spec() == if old(self).overflow_ap_spec() + delta
                > i32::MAX as int {
                i32::MAX as int
            } else if old(self).overflow_ap_spec() + delta < i32::MIN as int {
                i32::MIN as int
            } else {
                old(self).overflow_ap_spec() + delta
            },
            final(self).hp_spec() == old(self).hp_spec(),
            final(self).ap_spec() == old(self).ap_spec(),
            final(self).xp_spec() == old(self).xp_spec(),
            final(self).inventory_spec() == old(self).inventory_spec(),
            final(self).actor == old(self).actor,
            final(self).attributes == old(self).attributes,
            final(self).stats == old(self).stats,
            final(self).listeners == old(self).listeners,
    {
        let shifted: i64 = self.overflow_ap as i64 + delta as i64;
        if shifted > i32::MAX as i64 {
            self.overflow_ap = i32::MAX;
        } else if shifted < i32::MIN as i64 {
            self.overflow_ap = i32::MIN;
        } else {
            self.overflow_ap = shifted as i32;
        }
    }

    /// Fills hit points from the computed maximum, done once after the
    /// first stat computation, and notifies observers of the change.
    pub fn init(&mut self)
        ensures
            final(self).hp_spec() == if old(self).stats.max_hp > i32::MAX as u32 {
                i32::MAX as int
            } else {
                old(self).stats.max_hp as int
            },
            final(self).hp_spec() >= 0,
            final(self).listeners.pending_spec(),
            final(self).listeners.ids_spec() == old(self).listeners.ids_spec(),
            final(self).ap_spec() == old(self).ap_spec(),
            final(self).overflow_ap_spec() == old(self).overflow_ap_spec(),
            final(self).xp_spec() == old(self).xp_spec(),
            final(self).inventory_spec() == old(self).inventory_spec(),
            final(self).actor == old(self).actor,
            final(self).attributes == old(self).attributes,
            final(self).stats == old(self).stats,
            old(self).wf() ==> final(self).wf(),
    {
        if self.stats.max_hp > i32::MAX as u32 {
            self.hp = i32::MAX;
        } else {
            self.hp = self.stats.max_hp as i32;
        }
        self.listeners.notify();
    }

    /// Starts this entity's turn: action points reset to the rules' base
    /// value, exactly once per turn-start event, and observers are
    /// notified.  Afterwards the action points are exactly the base value,
    /// so in particular never above it.
    pub fn init_turn(&mut self, rules: &Rules)
        ensures
            final(self).ap_spec() == rules.base_ap,
            0 <= final(self).ap_spec() <= rules.base_ap,
            final(self).listeners.pending_spec(),
            final(self).listeners.ids_spec() == old(self).listeners.ids_spec(),
            final(self).hp_spec() == old(self).hp_spec(),
            final(self).overflow_ap_spec() == old(self).overflow_ap_spec(),
            final(self).xp_spec() == old(self).xp_spec(),
            final(self).inventory_spec() == old(self).inventory_spec(),
            final(self).actor == old(self).actor,
            final(self).attributes == old(self).attributes,
            final(self).stats == old(self).stats,
            old(self).wf() ==> final(self).wf(),
    {
        self.ap = rules.base_ap;
        self.listeners.notify();
    }

    /// Ends this entity's turn: remaining action points are forfeit,
    /// leaving exactly zero, and observers are notified of the change.
    pub fn end_turn(&mut self)
        ensures
            final(self).ap_spec() == 0,
            final(self).listeners.pending_spec(),
            final(self).listeners.ids_spec() == old(self).listeners.ids_spec(),
            final(self).hp_spec() == old(self).hp_spec(),
            final(self).overflow_ap_spec() == old(self).overflow_ap_spec(),
            final(self).xp_spec() == old(self).xp_spec(),
            final(self).inventory_spec() == old(self).inventory_spec(),
            final(self).actor == old(self).actor,
            final(self).attributes == old(self).attributes,
            final(self).stats == old(self).stats,
            old(self).wf() ==> final(self).wf(),
    {
        self.ap = 0;
        self.listeners.notify();
    }

    /// Equips the carried item at `index` and recomputes stats.
    pub fn equip(&mut self, rules: &Rules, index: usize) -> (ok: bool)
        requires
            old(self).wf(),
        ensures
            ok == old(self).inventory_spec().equip_ok(index as int),
            final(self).inventory_spec() == old(self).inventory_spec().equip_spec(index as int),
            final(self).wf(),
            stats_recomputed(*old(self), *final(self), *rules, final(self).inventory_spec()),
            final(self).hp_spec() == old(self).hp_spec(),
            final(self).ap_spec() == old(self).ap_spec(),
            final(self).overflow_ap_spec() == old(self).overflow_ap_spec(),
            final(self).xp_spec() == old(self).xp_spec(),
            final(self).actor == old(self).actor,
            final(self).attributes == old(self).attributes,
            final(self).listeners.pending_spec(),
            final(self).listeners.ids_spec() == old(self).listeners.ids_spec(),
    {
        let result = self.inventory.equip(index);
        self.compute_stats(rules);
        result
    }

    /// Clears a slot and recomputes stats.
    pub fn unequip(&mut self, rules: &Rules, slot: Slot) -> (ok: bool)
        requires
            old(self).wf(),
        ensures
            ok == old(self).inventory_spec().equipped_spec(slot) is Some,
            final(self).inventory_spec() == old(self).inventory_spec().unequip_spec(slot),
            final(self).wf(),
            stats_recomputed(*old(self), *final(self), *rules, final(self).inventory_spec()),
            final(self).hp_spec() == old(self).hp_spec(),
            final(self).ap_spec() == old(self).ap_spec(),
            final(self).overflow_ap_spec() == old(self).overflow_ap_spec(),
            final(self).xp_spec() == old(self).xp_spec(),
            final(self).actor == old(self).actor,
            final(self).attributes == old(self).attributes,
            final(self).listeners.pending_spec(),
            final(self).listeners.ids_spec() == old(self).listeners.ids_spec(),
    {
        let result = self.inventory.unequip(slot);
        self.compute_stats(rules);
        result
    }

    /// Recomputes the derived-stat snapshot from scratch: rules constants,
    /// then the race's base stats, then every class level's growth, then
    /// each equipped item's bonuses; the damage profile is rebuilt from the
    /// equipped candidates (or the race's innate damage) and observers are
    /// notified.  No observer can see a partial snapshot: the whole
    /// recompute happens before the notification.
    pub fn compute_stats(&mut self, rules: &Rules)
        requires
            old(self).wf(),
        ensures
            final(self).wf(),
            stats_recomputed(*old(self), *final(self), *rules, old(self).inventory_spec()),
            final(self).hp_spec() == old(self).hp_spec(),
            final(self).ap_spec() == old(self).ap_spec(),
            final(self).overflow_ap_spec() == old(self).overflow_ap_spec(),
            final(self).xp_spec() == old(self).xp_spec(),
            final(self).inventory_spec() == old(self).inventory_spec(),
            final(self).actor == old(self).actor,
            final(self).attributes == old(self).attributes,
            final(self).listeners.pending_spec(),
            final(self).listeners.ids_spec() == old(self).listeners.ids_spec(),
    {
        self.stats = StatList::default();
        let ghost s0 = self.stats;

        self.stats.initiative = rules.base_initiative;
        let melee: bool = match self.inventory.get(Slot::HeldMain) {
            None => true,
            Some(it) => match it.equippable {
                None => true,
                Some(eq) => !eq.ranged,
            },
        };
        self.stats.melee = melee;
        proof {
            assert(melee == melee_of(self.inventory_spec()));
            assert(self.stats == (StatList {
                initiative: rules.base_initiative,
                melee: melee_of(self.inventory_spec()),
                ..s0
            }));
        }
        let ghost s_init = self.stats;

        self.stats.add(&self.actor.race.base_stats);
        let ghost s_race = self.stats;

        let nl = self.actor.levels.len();
        let mut i: usize = 0;
        while i < nl
            invariant
                i <= nl,
                nl == self.actor.levels@.len(),
                self.stats == apply_levels(s_race, self.actor.levels@, i as int),
                *self == (ActorState { stats: self.stats, ..*old(self) }),
                self.stats.damage == s0.damage,
            decreases nl - i,
        {
            let (class, level) = self.actor.levels[i];
            self.stats.add_multiple(&class.bonuses_per_level, level);
            i = i + 1;
        }
        let ghost s_levels = self.stats;

        let mut candidates: Vec<Damage> = Vec::new();
        let mut r: usize = 0;
        while r < 6
            invariant
                r <= 6,
                self.stats == apply_items(s_levels, self.inventory_spec(), r as int),
                candidates@ == cands_upto(self.inventory_spec(), r as int),
                *self == (ActorState { stats: self.stats, ..*old(self) }),
                self.stats.damage == s0.damage,
                old(self).wf(),
            decreases 6 - r,
        {
            let slot = crate::item::slot_of_rank(r);
            let found: Option<crate::item::Equippable> = match self.inventory.get(slot) {
                None => None,
                Some(it) => it.equippable,
            };
            match found {
                None => (),
                Some(eq) => {
                    match eq.bonuses.base_damage {
                        None => (),
                        Some(d) => candidates.push(d),
                    }
                    self.stats.add(&eq.bonuses);
                },
            }
            r = r + 1;
        }
        if candidates.len() == 0 {
            match self.actor.race.base_stats.base_damage {
                None => (),
                Some(d) => candidates.push(d),
            }
        }
        proof {
            assert(candidates@ == damage_candidates(
                self.inventory_spec(),
                self.actor.race.base_stats.base_damage,
            ));
        }

        let base = rules.compute_damage_from(&candidates);
        proof {
            lemma_candidates_wf(self.inventory_spec(), self.actor.race.base_stats.base_damage);
            lemma_pick_damage_wf(candidates@);
        }
        self.stats.finalize(base);
        self.listeners.notify();
    }
}

/// How a recomputed snapshot relates to the state it was computed from:
/// starting from the zero snapshot with the rules' base initiative and the
/// main hand's melee flag, the race's base stats, every class level's
/// scaled growth and every equipped item's bonuses are folded in; the
/// maximum hit points are clamped to what the hit point type holds; and the
/// damage profile is created from the picked candidate.
pub open spec fn stats_recomputed(
    pre: ActorState,
    post: ActorState,
    rules: Rules,
    inv: Inventory,
) -> bool {
    let base = pick_damage(damage_candidates(inv, pre.actor.race.base_stats.base_damage));
    &&& exists|s0: StatList|
        {
            &&& #[trigger] default_stats(s0)
            &&& {
                let folded = apply_items(
                    apply_levels(
                        apply_bonuses(
                            StatList {
                                initiative: rules.base_initiative,
                                melee: melee_of(inv),
                                ..s0
                            },
                            pre.actor.race.base_stats,
                        ),
                        pre.actor.levels@,
                        pre.actor.levels@.len() as int,
                    ),
                    inv,
                    6,
                );
                &&& post.stats == (StatList {
                    max_hp: post.stats.max_hp,
                    damage: post.stats.damage,
                    ..folded
                })
                &&& post.stats.max_hp == if folded.max_hp > i32::MAX as u32 {
                    i32::MAX as u32
                } else {
                    folded.max_hp
                }
            }
        }
    &&& base.kind is Some ==> post.stats.damage.components() == created_components(
        base,
        Seq::empty(),
    )
    &&& base.kind is Some ==> post.stats.damage.min_spec() == base.min
    &&& base.kind is Some ==> post.stats.damage.max_spec() == base.max
    &&& base.kind is None ==> post.stats.damage.components().len() == 0
    &&& post.stats.damage.wf()
}

} // verus!
