//! The entity registry and turn manager: the single owner of all live
//! entities, handing out stable integer indices, arbitrating mutation
//! during attacks, and sweeping removed entities between update ticks.

use vstd::prelude::*;

use crate::actor::ActorState;
use crate::armor::Armor;
use crate::damage::{sat_sum, spec_amounts, spec_mitigate, total_damage, valid_rolls, Damage,
    DamageKind};
use crate::num::sat_sub_spec;
use crate::rules::{attack_margin, spec_hit_tier, HitKind, Rules};

verus! {

/// The stance of an entity towards the player's side.
#[derive(Clone, Copy, Debug, PartialEq, Eq, Structural)]
pub enum Faction {
    Hostile,
    Neutral,
    Friendly,
}

impl Faction {
    /// Hostility is mutual between the hostile and friendly factions;
    /// neutrals fight nobody.
    pub open spec fn hostile_to_spec(self, other: Faction) -> bool {
        (self is Hostile && other is Friendly) || (self is Friendly && other is Hostile)
    }

    pub fn is_hostile_to(self, other: Faction) -> (r: bool)
        ensures
            r == self.hostile_to_spec(other),
    {
        match (self, other) {
            (Faction::Hostile, Faction::Friendly) => true,
            (Faction::Friendly, Faction::Hostile) => true,
            _ => false,
        }
    }
}

/// A position on the grid of one area.
#[derive(Clone, Copy, Debug, PartialEq, Eq, Structural)]
pub struct Location {
    pub x: i32,
    pub y: i32,
    pub area: u32,
}

pub open spec fn abs_diff(a: int, b: int) -> int {
    if a >= b {
        a - b
    } else {
        b - a
    }
}

/// Distance between two positions in tiles: the larger of the coordinate
/// distances, so one step in any of the eight directions is one tile.
pub open spec fn spec_dist(a: Location, b: Location) -> int {
    let dx = abs_diff(a.x as int, b.x as int);
    let dy = abs_diff(a.y as int, b.y as int);
    if dx >= dy {
        dx
    } else {
        dy
    }
}

/// Distance between two positions in tiles.
pub fn dist_between(a: &Location, b: &Location) -> (r: u32)
    ensures
        r == spec_dist(*a, *b),
{
    let dx: i64 = if a.x >= b.x {
        a.x as i64 - b.x as i64
    } else {
        b.x as i64 - a.x as i64
    };
    let dy: i64 = if a.y >= b.y {
        a.y as i64 - b.y as i64
    } else {
        b.y as i64 - a.y as i64
    };
    if dx >= dy {
        dx as u32
    } else {
        dy as u32
    }
}

/// One live combatant: its registry index, where it stands, whose side it
/// is on, whether it is marked to be swept, and its mutable actor state.
#[derive(Clone, Debug)]
pub struct EntityState {
    pub index: usize,
    pub location: Location,
    pub faction: Faction,
    pub marked_for_removal: bool,
    pub actor: ActorState,
}

impl EntityState {
    /// Distance to another entity in tiles.
    pub fn dist_to_entity(&self, other: &EntityState) -> (r: u32)
        ensures
            r == spec_dist(self.location, other.location),
    {
        dist_between(&self.location, &other.location)
    }

    /// Whether the other entity is within this entity's melee reach.
    pub fn can_reach(&self, other: &EntityState) -> (r: bool)
        ensures
            r == (spec_dist(self.location, other.location) < self.actor.stats.reach),
    {
        let d = self.dist_to_entity(other);
        self.actor.can_reach(d)
    }

    /// Whether the two entities' factions are hostile to one another.
    pub fn is_hostile(&self, other: &EntityState) -> (r: bool)
        ensures
            r == self.faction.hostile_to_spec(other.faction),
    {
        self.faction.is_hostile_to(other.faction)
    }
}

/// Which defender statistic a special attack is rolled against.  A dummy
/// attack rolls against nothing and is resisted only by armor.
#[derive(Clone, Copy, Debug, PartialEq, Eq, Structural)]
pub enum AccuracyKind {
    Defense,
    Fortitude,
    Reflex,
    Will,
    Dummy,
}

/// The defender statistic an accuracy kind selects.
pub open spec fn spec_defense_of(stats: crate::stats::StatList, kind: AccuracyKind) -> u32 {
    match kind {
        AccuracyKind::Defense => stats.defense,
        AccuracyKind::Fortitude => stats.fortitude,
        AccuracyKind::Reflex => stats.reflex,
        AccuracyKind::Will => stats.will,
        AccuracyKind::Dummy => 0u32,
    }
}

/// What one resolved attack did: the tier rolled, the per-kind damage that
/// got through armor, and their total.
#[derive(Clone, Debug)]
pub struct AttackOutcome {
    pub hit_kind: HitKind,
    pub components: Vec<(DamageKind, u32)>,
    pub total: u32,
}

/// The exclusive owner of all live entities.  Indices are handed out once
/// and never reused; a removed entity leaves an empty slot behind, so a
/// stale index resolves to nothing instead of to a different entity.
pub struct Registry {
    entities: Vec<Option<EntityState>>,
}

impl Registry {
    /// The slots in index order: an entity, or the hole one left behind.
    pub closed spec fn slots(&self) -> Seq<Option<EntityState>> {
        self.entities@
    }

    pub open spec fn slot_count(&self) -> int {
        self.slots().len() as int
    }

    /// Whether an index currently resolves to a live entity.
    pub open spec fn live(&self, i: int) -> bool {
        0 <= i < self.slot_count() && self.slots()[i] is Some
    }

    /// The entity at a live index.
    pub open spec fn entity_at(&self, i: int) -> EntityState {
        self.slots()[i].unwrap()
    }

    /// Every occupied slot holds an entity that knows its own index and
    /// has consistent actor state.
    pub open spec fn wf(&self) -> bool {
        forall|i: int|
            0 <= i < self.slot_count() && (#[trigger] self.slots()[i]) is Some ==> {
                &&& self.slots()[i].unwrap().index == i
                &&& self.slots()[i].unwrap().actor.wf()
            }
    }

    /// An empty registry.
    pub fn new() -> (r: Registry)
        ensures
            r.wf(),
            r.slot_count() == 0,
    {
        Registry { entities: Vec::new() }
    }

    /// How many slots have ever been handed out, live or swept.
    pub fn len(&self) -> (r: usize)
        ensures
            r == self.slot_count(),
    {
        self.entities.len()
    }

    /// Places a new entity and hands out its stable index.  Indices grow;
    /// none is ever reused, so outstanding references to swept entities
    /// keep resolving to nothing.
    pub fn add_entity(&mut self, actor: ActorState, location: Location, faction: Faction) -> (
        idx: usize)
        requires
            old(self).wf(),
            actor.wf(),
        ensures
            final(self).wf(),
            idx == old(self).slot_count(),
            final(self).slots() == old(self).slots().push(
                Some(
                    EntityState {
                        index: idx,
                        location,
                        faction,
                        marked_for_removal: false,
                        actor,
                    },
                ),
            ),
            final(self).live(idx as int),
    {
        let idx = self.entities.len();
        self.entities.push(
            Some(EntityState { index: idx, location, faction, marked_for_removal: false, actor }),
        );
        idx
    }

    /// Whether the index resolves to a live entity.
    pub fn has_entity(&self, index: usize) -> (r: bool)
        ensures
            r == self.live(index as int),
    {
        if index >= self.entities.len() {
            return false;
        }
        self.entities[index].is_some()
    }

    /// Resolves an index, never panicking: a stale or out-of-range index
    /// yields nothing.
    pub fn entity_checked(&self, index: usize) -> (r: Option<&EntityState>)
        ensures
            r is Some <==> self.live(index as int),
            r is Some ==> *r.unwrap() == self.entity_at(index as int),
    {
        if index >= self.entities.len() {
            return None;
        }
        match &self.entities[index] {
            None => None,
            Some(e) => Some(e),
        }
    }

    /// The entity at a known-live index.
    pub fn entity(&self, index: usize) -> (r: &EntityState)
        requires
            self.live(index as int),
        ensures
            *r == self.entity_at(index as int),
    {
        match &self.entities[index] {
            Some(e) => e,
            None => unreached(),
        }
    }

    /// A stable snapshot of the live indices, in index order, for one
    /// caller's iteration.
    pub fn entity_indices(&self) -> (r: Vec<usize>)
        ensures
            forall|j: int| 0 <= j < r@.len() ==> self.live(#[trigger] r@[j] as int),
            forall|i: int| 0 <= i < self.slot_count() && self.live(i) ==> r@.contains(i as usize),
            forall|j1: int, j2: int| 0 <= j1 < j2 < r@.len() ==> r@[j1] < r@[j2],
    {
        let n = self.entities.len();
        let mut out: Vec<usize> = Vec::new();
        let mut i: usize = 0;
        while i < n
            invariant
                i <= n,
                n == self.slot_count(),
                forall|j: int| 0 <= j < out@.len() ==> self.live(#[trigger] out@[j] as int),
                forall|k: int| 0 <= k < i && self.live(k) ==> out@.contains(k as usize),
                forall|j: int| 0 <= j < out@.len() ==> out@[j] < i,
                forall|j1: int, j2: int| 0 <= j1 < j2 < out@.len() ==> out@[j1] < out@[j2],
            decreases n - i,
        {
            let ghost prev = out@;
            if self.entities[i].is_some() {
                out.push(i);
            }
            proof {
                assert forall|k: int| 0 <= k < i + 1 && self.live(k) implies out@.contains(
                    k as usize,
                ) by {
                    if k < i {
                        let j = choose|j: int| 0 <= j < prev.len() && prev[j] == k as usize;
                        assert(out@[j] == k as usize);
                    } else {
                        assert(out@[out@.len() - 1] == i as usize);
                    }
                }
            }
            i = i + 1;
        }
        out
    }

    /// Marks a live entity for removal at the next sweep; in-flight
    /// references keep resolving until then.  A stale index is ignored.
    pub fn mark_for_removal(&mut self, index: usize)
        requires
            old(self).wf(),
        ensures
            final(self).wf(),
            !old(self).live(index as int) ==> final(self).slots() == old(self).slots(),
            old(self).live(index as int) ==> final(self).slots() == old(self).slots().update(
                index as int,
                Some(
                    EntityState {
                        marked_for_removal: true,
                        ..old(self).entity_at(index as int)
                    },
                ),
            ),
    {
        if index >= self.entities.len() {
            return ;
        }
        let slot = &mut self.entities[index];
        match slot {
            None => {},
            Some(e) => {
                e.marked_for_removal = true;
            },
        }
        proof {
            if !old(self).live(index as int) {
                assert(final(self).slots() =~= old(self).slots());
            }
        }
    }

    /// Sweeps marked entities: their slots become permanent holes.  Done
    /// between update ticks, never during iteration, so no caller observes
    /// an entity vanishing mid-tick.
    pub fn sweep(&mut self)
        requires
            old(self).wf(),
        ensures
            final(self).wf(),
            final(self).slot_count() == old(self).slot_count(),
            forall|i: int|
                0 <= i < old(self).slot_count() ==> final(self).slots()[i] == (
                if old(self).live(i) && old(self).entity_at(i).marked_for_removal {
                    None::<EntityState>
                } else {
                    old(self).slots()[i]
                }),
    {
        let ghost pre = *self;
        let n = self.entities.len();
        let mut i: usize = 0;
        while i < n
            invariant
                i <= n,
                n == self.slot_count(),
                self.slot_count() == pre.slot_count(),
                pre.wf(),
                forall|k: int|
                    i <= k < pre.slot_count() ==> (#[trigger] self.slots()[k]) == pre.slots()[k],
                forall|k: int|
                    0 <= k < i ==> (#[trigger] self.slots()[k]) == (if pre.live(k)
                        && pre.entity_at(k).marked_for_removal {
                        None::<EntityState>
                    } else {
                        pre.slots()[k]
                    }),
            decreases n - i,
        {
            let marked: bool = match &self.entities[i] {
                None => false,
                Some(e) => e.marked_for_removal,
            };
            if marked {
                let slot = &mut self.entities[i];
                *slot = None;
            }
            proof {
                assert(self.slots()[i as int] == (if pre.live(i as int) && pre.entity_at(
                    i as int,
                ).marked_for_removal {
                    None::<EntityState>
                } else {
                    pre.slots()[i as int]
                }));
            }
            i = i + 1;
        }
        proof {
            assert forall|k: int|
                0 <= k < self.slot_count() && (#[trigger] self.slots()[k]) is Some implies {
                &&& self.slots()[k].unwrap().index == k
                &&& self.slots()[k].unwrap().actor.wf()
            } by {
                assert(self.slots()[k] == pre.slots()[k]);
            }
        }
    }

    /// Starts one entity's turn: action points reset to the rules' base
    /// value.  Afterwards they are exactly the base value, in particular
    /// between zero and it.
    pub fn init_turn(&mut self, rules: &Rules, index: usize)
        requires
            old(self).wf(),
            old(self).live(index as int),
        ensures
            final(self).wf(),
            final(self).live(index as int),
            final(self).slots() == old(self).slots().update(
                index as int,
                Some(final(self).entity_at(index as int)),
            ),
            final(self).entity_at(index as int) == (EntityState {
                actor: final(self).entity_at(index as int).actor,
                ..old(self).entity_at(index as int)
            }),
            final(self).entity_at(index as int).actor == (ActorState {
                ap: rules.base_ap,
                listeners: final(self).entity_at(index as int).actor.listeners,
                ..old(self).entity_at(index as int).actor
            }),
            0 <= final(self).entity_at(index as int).actor.ap_spec() <= rules.base_ap,
            final(self).entity_at(index as int).actor.listeners.pending_spec(),
    {
        let slot = &mut self.entities[index];
        match slot {
            None => {},
            Some(e) => {
                e.actor.init_turn(rules);
            },
        }
    }

    /// Ends one entity's turn: remaining action points are forfeit,
    /// leaving exactly zero, and its observers are notified.
    pub fn end_turn(&mut self, index: usize)
        requires
            old(self).wf(),
            old(self).live(index as int),
        ensures
            final(self).wf(),
            final(self).live(index as int),
            final(self).slots() == old(self).slots().update(
                index as int,
                Some(final(self).entity_at(index as int)),
            ),
            final(self).entity_at(index as int) == (EntityState {
                actor: final(self).entity_at(index as int).actor,
                ..old(self).entity_at(index as int)
            }),
            final(self).entity_at(index as int).actor == (ActorState {
                ap: 0u32,
                listeners: final(self).entity_at(index as int).actor.listeners,
                ..old(self).entity_at(index as int).actor
            }),
            final(self).entity_at(index as int).actor.ap_spec() == 0,
            final(self).entity_at(index as int).actor.listeners.pending_spec(),
            final(self).entity_at(index as int).actor.listeners.ids_spec() == old(
                self,
            ).entity_at(index as int).actor.listeners.ids_spec(),
    {
        let slot = &mut self.entities[index];
        match slot {
            None => {},
            Some(e) => {
                e.actor.end_turn();
            },
        }
    }

    /// The first live index in `[lo, hi)`, in index order.
    pub open spec fn first_live_in(&self, lo: int, hi: int) -> Option<usize>
        decreases hi - lo,
    {
        if lo >= hi {
            None
        } else if self.live(lo) {
            Some(lo as usize)
        } else {
            self.first_live_in(lo + 1, hi)
        }
    }

    /// The entity whose turn follows `current`'s: the next live index,
    /// wrapping around to the front; `current` itself when it is the only
    /// live entity.
    pub open spec fn next_in_order(&self, current: int) -> Option<usize> {
        match self.first_live_in(current + 1, self.slot_count()) {
            Some(i) => Some(i),
            None => self.first_live_in(0, current + 1),
        }
    }

    /// A found first-live index is live and inside the range.
    proof fn lemma_first_live_in_live(&self, lo: int, hi: int)
        requires
            hi <= usize::MAX as int + 1,
        ensures
            self.first_live_in(lo, hi) is Some ==> {
                let i = self.first_live_in(lo, hi).unwrap() as int;
                lo <= i < hi && self.live(i)
            },
        decreases hi - lo,
    {
        if lo >= hi {
        } else if self.live(lo) {
            assert(self.first_live_in(lo, hi) == Some(lo as usize));
        } else {
            self.lemma_first_live_in_live(lo + 1, hi);
        }
    }

    /// A range holding a live index yields one.
    proof fn lemma_first_live_in_some(&self, lo: int, hi: int, k: int)
        requires
            hi <= usize::MAX as int + 1,
            lo <= k < hi,
            self.live(k),
        ensures
            self.first_live_in(lo, hi) is Some,
        decreases k - lo,
    {
        if !self.live(lo) && lo < k {
            self.lemma_first_live_in_some(lo + 1, hi, k);
        }
    }

    /// The first live index in `[lo, hi)`.
    fn first_live_between(&self, lo: usize, hi: usize) -> (r: Option<usize>)
        requires
            hi <= self.slot_count(),
        ensures
            r == self.first_live_in(lo as int, hi as int),
    {
        let mut i: usize = lo;
        if i >= hi {
            return None;
        }
        while i < hi
            invariant
                lo <= i <= hi,
                hi <= self.slot_count(),
                self.first_live_in(lo as int, hi as int) == self.first_live_in(
                    i as int,
                    hi as int,
                ),
            decreases hi - i,
        {
            if self.entities[i].is_some() {
                return Some(i);
            }
            i = i + 1;
        }
        None
    }

    /// Advances the turn order past `current`: its remaining action points
    /// are forfeit, and the next live entity in index order (wrapping
    /// around; `current` itself when it is the only one left) starts its
    /// turn with the rules' base action points.  Observers of both
    /// entities are notified.  The caller keeps the returned index as the
    /// new current entity.
    pub fn advance_turn(&mut self, rules: &Rules, current: usize) -> (next: usize)
        requires
            old(self).wf(),
            old(self).live(current as int),
        ensures
            final(self).wf(),
            Some(next) == old(self).next_in_order(current as int),
            final(self).live(next as int),
            final(self).entity_at(next as int).actor.ap_spec() == rules.base_ap,
            0 <= final(self).entity_at(next as int).actor.ap_spec() <= rules.base_ap,
            final(self).entity_at(next as int).actor.listeners.pending_spec(),
            next != current ==> final(self).entity_at(current as int).actor.ap_spec() == 0,
            next != current ==> final(self).entity_at(
                current as int,
            ).actor.listeners.pending_spec(),
            next != current ==> final(self).entity_at(current as int).actor.listeners.ids_spec()
                == old(self).entity_at(current as int).actor.listeners.ids_spec(),
            next != current ==> final(self).slots() == old(self).slots().update(
                current as int,
                Some(
                    EntityState {
                        actor: ActorState {
                            ap: 0u32,
                            listeners: final(self).entity_at(current as int).actor.listeners,
                            ..old(self).entity_at(current as int).actor
                        },
                        ..old(self).entity_at(current as int)
                    },
                ),
            ).update(next as int, Some(final(self).entity_at(next as int))),
            next != current ==> final(self).entity_at(next as int).actor == (ActorState {
                ap: rules.base_ap,
                listeners: final(self).entity_at(next as int).actor.listeners,
                ..old(self).entity_at(next as int).actor
            }),
            next == current ==> final(self).slots() == old(self).slots().update(
                current as int,
                Some(final(self).entity_at(current as int)),
            ),
            next == current ==> final(self).entity_at(current as int).actor == (ActorState {
                ap: rules.base_ap,
                listeners: final(self).entity_at(current as int).actor.listeners,
                ..old(self).entity_at(current as int).actor
            }),
    {
        let count = self.entities.len();
        let next = match self.first_live_between(current + 1, count) {
            Some(i) => i,
            None => {
                proof {
                    self.lemma_first_live_in_some(0, current as int + 1, current as int);
                }
                match self.first_live_between(0, current + 1) {
                    Some(i) => i,
                    None => unreached(),
                }
            },
        };
        proof {
            self.lemma_first_live_in_live(current as int + 1, self.slot_count());
            self.lemma_first_live_in_live(0, current as int + 1);
        }
        self.end_turn(current);
        self.init_turn(rules, next);
        next
    }

    /// Resolves one standard weapon attack from `att` against `def`.
    ///
    /// The attacker pays the attack cost up front, whatever the roll
    /// yields.  A miss ends the attack with no damage and no call into the
    /// damage engine.  Any other tier rolls the attacker's damage profile
    /// with that tier's multiplier against the defender's armor; whatever
    /// gets through is removed from the defender's hit points, which never
    /// go below zero.  A fully absorbed attack leaves the defender
    /// untouched.
    pub fn attack(&mut self, rules: &Rules, att: usize, def: usize) -> (out: AttackOutcome)
        requires
            old(self).wf(),
            old(self).live(att as int),
            old(self).live(def as int),
            att != def,
        ensures
            final(self).wf(),
            attack_post(*old(self), *final(self), *rules, att as int, def as int, out),
    {
        let att_accuracy = self.entity(att).actor.stats.accuracy;
        let def_defense = self.entity(def).actor.stats.defense;
        let def_armor: Armor = self.entity(def).actor.stats.armor;
        let ghost pre = *self;

        {
            let slot = &mut self.entities[att];
            match slot {
                None => {},
                Some(e) => {
                    e.actor.remove_ap(rules.attack_ap);
                },
            }
        }

        let hit_kind = rules.attack_roll(att_accuracy, def_defense);
        let ghost hroll = choose|r: u32|
            1 <= r <= 100 && hit_kind == spec_hit_tier(
                *rules,
                attack_margin(r, att_accuracy, def_defense),
            );

        let is_miss: bool = match hit_kind {
            HitKind::Miss => true,
            _ => false,
        };
        if is_miss {
            let out = AttackOutcome { hit_kind, components: Vec::new(), total: 0 };
            proof {
                assert(1 <= hroll <= 100 && out.hit_kind == spec_hit_tier(
                    *rules,
                    attack_margin(hroll, att_accuracy, def_defense),
                ));
            }
            return out;
        }

        let multiplier: u32 = match hit_kind {
            HitKind::Graze => rules.graze_multiplier,
            HitKind::Hit => rules.hit_multiplier,
            HitKind::Crit => rules.crit_multiplier,
            HitKind::Miss => 0,
        };
        proof {
            assert(multiplier == rules.tier_multiplier(hit_kind));
        }
        let components = self.entity(att).actor.stats.damage.roll(&def_armor, multiplier);
        let total = total_damage(&components);
        if components.len() > 0 {
            let slot = &mut self.entities[def];
            match slot {
                None => {},
                Some(e) => {
                    e.actor.remove_hp(total);
                },
            }
        }
        let out = AttackOutcome { hit_kind, components, total };
        proof {
            let rolls = choose|rolls: Seq<u32>|
                valid_rolls(pre.entity_at(att as int).actor.stats.damage.components(), rolls)
                    && out.components@ == spec_mitigate(
                    spec_amounts(
                        pre.entity_at(att as int).actor.stats.damage.components(),
                        rolls,
                        multiplier,
                    ),
                    pre.entity_at(att as int).actor.stats.damage.base_armor_spec(&def_armor),
                );
            assert(1 <= hroll <= 100 && {
                let hk = spec_hit_tier(*rules, attack_margin(hroll, att_accuracy, def_defense));
                &&& out.hit_kind == hk
                &&& (!(hk is Miss) ==> valid_rolls(
                    old(self).entity_at(att as int).actor.stats.damage.components(),
                    rolls,
                ) && out.components@ == spec_mitigate(
                    spec_amounts(
                        old(self).entity_at(att as int).actor.stats.damage.components(),
                        rolls,
                        rules.tier_multiplier(hk),
                    ),
                    old(self).entity_at(att as int).actor.stats.damage.base_armor_spec(
                        &old(self).entity_at(def as int).actor.stats.armor,
                    ),
                ))
            });
        }
        out
    }

    /// Resolves a scripted special attack: an explicit damage range, armor
    /// piercing and kind supplied by the caller instead of the attacker's
    /// damage profile, rolled against the defender statistic the accuracy
    /// kind selects.  No action points are spent; the attacker is left
    /// untouched.  Armor piercing shrinks the armor pool, never below
    /// zero.
    pub fn special_attack(
        &mut self,
        rules: &Rules,
        att: usize,
        def: usize,
        min_damage: u32,
        max_damage: u32,
        ap_pierce: u32,
        damage_kind: DamageKind,
        accuracy_kind: AccuracyKind,
    ) -> (out: AttackOutcome)
        requires
            old(self).wf(),
            old(self).live(att as int),
            old(self).live(def as int),
            att != def,
            min_damage <= max_damage,
        ensures
            final(self).wf(),
            special_attack_post(
                *old(self),
                *final(self),
                *rules,
                att as int,
                def as int,
                min_damage,
                max_damage,
                ap_pierce,
                damage_kind,
                accuracy_kind,
                out,
            ),
    {
        let att_accuracy = self.entity(att).actor.stats.accuracy;
        let def_defense: u32 = match accuracy_kind {
            AccuracyKind::Defense => self.entity(def).actor.stats.defense,
            AccuracyKind::Fortitude => self.entity(def).actor.stats.fortitude,
            AccuracyKind::Reflex => self.entity(def).actor.stats.reflex,
            AccuracyKind::Will => self.entity(def).actor.stats.will,
            AccuracyKind::Dummy => 0,
        };
        proof {
            assert(def_defense == spec_defense_of(
                old(self).entity_at(def as int).actor.stats,
                accuracy_kind,
            ));
        }
        let armor_amount = self.entity(def).actor.stats.armor.amount(damage_kind);
        let pool = crate::num::sat_sub(armor_amount, ap_pierce);
        let ghost dmg_spec = Damage { min: min_damage, max: max_damage, kind: Some(damage_kind) };

        let hit_kind = rules.attack_roll(att_accuracy, def_defense);
        let ghost hroll = choose|r: u32|
            1 <= r <= 100 && hit_kind == spec_hit_tier(
                *rules,
                attack_margin(r, att_accuracy, def_defense),
            );

        let is_miss: bool = match hit_kind {
            HitKind::Miss => true,
            _ => false,
        };
        if is_miss {
            let out = AttackOutcome { hit_kind, components: Vec::new(), total: 0 };
            proof {
                assert(1 <= hroll <= 100 && out.hit_kind == spec_hit_tier(
                    *rules,
                    attack_margin(hroll, att_accuracy, def_defense),
                ));
            }
            return out;
        }

        let multiplier: u32 = match hit_kind {
            HitKind::Graze => rules.graze_multiplier,
            HitKind::Hit => rules.hit_multiplier,
            HitKind::Crit => rules.crit_multiplier,
            HitKind::Miss => 0,
        };
        proof {
            assert(multiplier == rules.tier_multiplier(hit_kind));
        }
        let draw = crate::rng::rand_in_range(min_damage, max_damage);
        let amt = crate::damage::scale_amount(draw, multiplier);
        let mut items: Vec<(DamageKind, u32)> = Vec::new();
        items.push((damage_kind, amt));
        proof {
            assert(items@ =~= spec_amounts(seq![dmg_spec], seq![draw], multiplier));
            assert(valid_rolls(seq![dmg_spec], seq![draw]));
        }
        let components = crate::damage::mitigate(&items, pool);
        proof {
            crate::damage::lemma_mitigate_positive(items@, pool);
        }
        let total = total_damage(&components);
        if components.len() > 0 {
            let slot = &mut self.entities[def];
            match slot {
                None => {},
                Some(e) => {
                    e.actor.remove_hp(total);
                },
            }
        }
        let out = AttackOutcome { hit_kind, components, total };
        proof {
            assert(1 <= hroll <= 100 && {
                let hk = spec_hit_tier(*rules, attack_margin(hroll, att_accuracy, def_defense));
                &&& out.hit_kind == hk
                &&& (!(hk is Miss) ==> valid_rolls(seq![dmg_spec], seq![draw])
                    && out.components@ == spec_mitigate(
                    spec_amounts(seq![dmg_spec], seq![draw], rules.tier_multiplier(hk)),
                    sat_sub_spec(
                        old(self).entity_at(def as int).actor.stats.armor.amount_spec(
                            damage_kind,
                        ) as int,
                        ap_pierce as int,
                    ),
                ))
            });
        }
        out
    }

    /// Applies scripted direct damage to one entity: a single component
    /// rolled at full multiplier against the entity's own armor, less the
    /// given armor piercing.  No attack roll is made.
    pub fn take_damage(
        &mut self,
        target: usize,
        min_damage: u32,
        max_damage: u32,
        ap_pierce: u32,
        damage_kind: DamageKind,
    ) -> (dealt: Vec<(DamageKind, u32)>)
        requires
            old(self).wf(),
            old(self).live(target as int),
            min_damage <= max_damage,
        ensures
            final(self).wf(),
            take_damage_post(
                *old(self),
                *final(self),
                target as int,
                min_damage,
                max_damage,
                ap_pierce,
                damage_kind,
                dealt@,
            ),
    {
        let armor_amount = self.entity(target).actor.stats.armor.amount(damage_kind);
        let pool = crate::num::sat_sub(armor_amount, ap_pierce);
        let ghost dmg_spec = Damage { min: min_damage, max: max_damage, kind: Some(damage_kind) };

        let draw = crate::rng::rand_in_range(min_damage, max_damage);
        let amt = crate::damage::scale_amount(draw, 100);
        let mut items: Vec<(DamageKind, u32)> = Vec::new();
        items.push((damage_kind, amt));
        proof {
            assert(items@ =~= spec_amounts(seq![dmg_spec], seq![draw], 100u32));
            assert(valid_rolls(seq![dmg_spec], seq![draw]));
        }
        let dealt = crate::damage::mitigate(&items, pool);
        proof {
            crate::damage::lemma_mitigate_positive(items@, pool);
        }
        if dealt.len() > 0 {
            let total = total_damage(&dealt);
            let slot = &mut self.entities[target];
            match slot {
                None => {},
                Some(e) => {
                    e.actor.remove_hp(total);
                },
            }
        }
        dealt
    }

    /// Restores hit points on one entity, never above its computed
    /// maximum.
    pub fn heal_damage(&mut self, target: usize, amount: u32)
        requires
            old(self).wf(),
            old(self).live(target as int),
        ensures
            final(self).wf(),
            final(self).live(target as int),
            final(self).slots() == old(self).slots().update(
                target as int,
                Some(final(self).entity_at(target as int)),
            ),
            entity_actor_only(
                old(self).entity_at(target as int),
                final(self).entity_at(target as int),
            ),
            actor_hp_only(
                old(self).entity_at(target as int).actor,
                final(self).entity_at(target as int).actor,
            ),
            final(self).entity_at(target as int).actor.hp_spec() == {
                let pre = old(self).entity_at(target as int).actor;
                let cap = if pre.stats.max_hp > i32::MAX as u32 {
                    i32::MAX as int
                } else {
                    pre.stats.max_hp as int
                };
                if pre.hp_spec() + amount > cap {
                    cap
                } else {
                    pre.hp_spec() + amount
                }
            },
            final(self).entity_at(target as int).actor.listeners.pending_spec(),
    {
        let slot = &mut self.entities[target];
        match slot {
            None => {},
            Some(e) => {
                e.actor.add_hp(amount);
            },
        }
    }

    /// Spends one entity's action points, never below zero.
    pub fn remove_ap(&mut self, index: usize, amount: u32)
        requires
            old(self).wf(),
            old(self).live(index as int),
        ensures
            final(self).wf(),
            final(self).live(index as int),
            final(self).slots() == old(self).slots().update(
                index as int,
                Some(final(self).entity_at(index as int)),
            ),
            entity_actor_only(
                old(self).entity_at(index as int),
                final(self).entity_at(index as int),
            ),
            actor_ap_only(
                old(self).entity_at(index as int).actor,
                final(self).entity_at(index as int).actor,
            ),
            final(self).entity_at(index as int).actor.ap_spec() == sat_sub_spec(
                old(self).entity_at(index as int).actor.ap_spec() as int,
                amount as int,
            ),
            final(self).entity_at(index as int).actor.listeners.pending_spec(),
    {
        let slot = &mut self.entities[index];
        match slot {
            None => {},
            Some(e) => {
                e.actor.remove_ap(amount);
            },
        }
    }

    /// Removes hit points from one entity, never below zero.
    pub fn remove_hp(&mut self, index: usize, amount: u32)
        requires
            old(self).wf(),
            old(self).live(index as int),
        ensures
            final(self).wf(),
            final(self).live(index as int),
            final(self).slots() == old(self).slots().update(
                index as int,
                Some(final(self).entity_at(index as int)),
            ),
            entity_actor_only(
                old(self).entity_at(index as int),
                final(self).entity_at(index as int),
            ),
            actor_hp_only(
                old(self).entity_at(index as int).actor,
                final(self).entity_at(index as int).actor,
            ),
            final(self).entity_at(index as int).actor.hp_spec() == (if amount as int > old(self).entity_at(index as int).actor.hp_spec() as int {
                0int
            } else {
                old(self).entity_at(index as int).actor.hp_spec() - amount
            }),
            final(self).entity_at(index as int).actor.hp_spec() >= 0,
            final(self).entity_at(index as int).actor.listeners.pending_spec(),
    {
        let slot = &mut self.entities[index];
        match slot {
            None => {},
            Some(e) => {
                e.actor.remove_hp(amount);
            },
        }
    }

    /// Recomputes one entity's derived stats from its current equipment,
    /// levels and template data.
    pub fn compute_stats(&mut self, rules: &Rules, index: usize)
        requires
            old(self).wf(),
            old(self).live(index as int),
        ensures
            final(self).wf(),
            final(self).live(index as int),
            final(self).slots() == old(self).slots().update(
                index as int,
                Some(final(self).entity_at(index as int)),
            ),
            entity_actor_only(
                old(self).entity_at(index as int),
                final(self).entity_at(index as int),
            ),
            actor_stats_only(
                old(self).entity_at(index as int).actor,
                final(self).entity_at(index as int).actor,
            ),
            crate::actor::stats_recomputed(
                old(self).entity_at(index as int).actor,
                final(self).entity_at(index as int).actor,
                *rules,
                old(self).entity_at(index as int).actor.inventory_spec(),
            ),
            final(self).entity_at(index as int).actor.listeners.pending_spec(),
    {
        let slot = &mut self.entities[index];
        match slot {
            None => {},
            Some(e) => {
                e.actor.compute_stats(rules);
            },
        }
    }
}

/// Everything a standard weapon attack from `att` against `def` promises
/// of the registry before (`pre`) and after (`post`), and of its outcome.
///
/// The attacker pays the attack cost whatever the roll yields, and only
/// its action points move.  A miss deals nothing and leaves the defender
/// untouched.  Any other tier admits a die roll and a set of damage draws
/// that account exactly for the emitted components; their total comes off
/// the defender's hit points, never below zero, unless armor absorbed
/// everything, in which case the defender is untouched.  No other entity
/// changes.
pub open spec fn attack_post(
    pre: Registry,
    post: Registry,
    rules: Rules,
    att: int,
    def: int,
    out: AttackOutcome,
) -> bool {
    &&& post.slot_count() == pre.slot_count()
    &&& post.live(att)
    &&& post.live(def)
    &&& forall|i: int|
        0 <= i < pre.slot_count() && i != att && i != def ==> (#[trigger] post.slots()[i])
            == pre.slots()[i]
    &&& entity_actor_only(pre.entity_at(att), post.entity_at(att))
    &&& actor_ap_only(pre.entity_at(att).actor, post.entity_at(att).actor)
    &&& post.entity_at(att).actor.ap_spec() == sat_sub_spec(
        pre.entity_at(att).actor.ap_spec() as int,
        rules.attack_ap as int,
    )
    &&& post.entity_at(att).actor.listeners.pending_spec()
    &&& entity_actor_only(pre.entity_at(def), post.entity_at(def))
    &&& actor_hp_only(pre.entity_at(def).actor, post.entity_at(def).actor)
    &&& (out.hit_kind is Miss ==> out.components@.len() == 0 && out.total == 0
        && post.slots()[def] == pre.slots()[def])
    &&& forall|i: int| 0 <= i < out.components@.len() ==> (#[trigger] out.components@[i]).1 > 0
    &&& out.total == sat_sum(out.components@)
    &&& exists|roll: u32|
        1 <= roll <= 100 && {
            let hk = spec_hit_tier(
                rules,
                #[trigger] attack_margin(
                    roll,
                    pre.entity_at(att).actor.stats.accuracy,
                    pre.entity_at(def).actor.stats.defense,
                ),
            );
            &&& out.hit_kind == hk
            &&& (!(hk is Miss) ==> exists|rolls: Seq<u32>|
                {
                    &&& #[trigger] valid_rolls(
                        pre.entity_at(att).actor.stats.damage.components(),
                        rolls,
                    )
                    &&& out.components@ == spec_mitigate(
                        spec_amounts(
                            pre.entity_at(att).actor.stats.damage.components(),
                            rolls,
                            rules.tier_multiplier(hk),
                        ),
                        pre.entity_at(att).actor.stats.damage.base_armor_spec(
                            &pre.entity_at(def).actor.stats.armor,
                        ),
                    )
                })
        }
    &&& (out.components@.len() == 0 ==> post.slots()[def] == pre.slots()[def])
    &&& (out.components@.len() > 0 ==> post.entity_at(def).actor.hp_spec() == (
    if out.total as int > pre.entity_at(def).actor.hp_spec() as int {
        0int
    } else {
        pre.entity_at(def).actor.hp_spec() - out.total
    }))
    &&& (out.components@.len() > 0 ==> post.entity_at(def).actor.listeners.pending_spec())
}

/// Everything a scripted special attack promises: as a standard attack,
/// but no action points move and the attacker is untouched; the damage is
/// the single caller-supplied component, its draw scaled by the rolled
/// tier's multiplier, and the armor pool for its kind is shrunk by the
/// armor piercing value before mitigation.
pub open spec fn special_attack_post(
    pre: Registry,
    post: Registry,
    rules: Rules,
    att: int,
    def: int,
    min_damage: u32,
    max_damage: u32,
    ap_pierce: u32,
    damage_kind: DamageKind,
    accuracy_kind: AccuracyKind,
    out: AttackOutcome,
) -> bool {
    &&& post.slot_count() == pre.slot_count()
    &&& post.live(att)
    &&& post.live(def)
    &&& forall|i: int|
        0 <= i < pre.slot_count() && i != def ==> (#[trigger] post.slots()[i]) == pre.slots()[i]
    &&& entity_actor_only(pre.entity_at(def), post.entity_at(def))
    &&& actor_hp_only(pre.entity_at(def).actor, post.entity_at(def).actor)
    &&& (out.hit_kind is Miss ==> out.components@.len() == 0 && out.total == 0
        && post.slots()[def] == pre.slots()[def])
    &&& forall|i: int| 0 <= i < out.components@.len() ==> (#[trigger] out.components@[i]).1 > 0
    &&& out.total == sat_sum(out.components@)
    &&& exists|roll: u32|
        1 <= roll <= 100 && {
            let hk = spec_hit_tier(
                rules,
                #[trigger] attack_margin(
                    roll,
                    pre.entity_at(att).actor.stats.accuracy,
                    spec_defense_of(pre.entity_at(def).actor.stats, accuracy_kind),
                ),
            );
            &&& out.hit_kind == hk
            &&& (!(hk is Miss) ==> exists|rolls: Seq<u32>|
                {
                    &&& #[trigger] valid_rolls(
                        seq![Damage { min: min_damage, max: max_damage, kind: Some(damage_kind) }],
                        rolls,
                    )
                    &&& out.components@ == spec_mitigate(
                        spec_amounts(
                            seq![
                                Damage {
                                    min: min_damage,
                                    max: max_damage,
                                    kind: Some(damage_kind),
                                },
                            ],
                            rolls,
                            rules.tier_multiplier(hk),
                        ),
                        sat_sub_spec(
                            pre.entity_at(def).actor.stats.armor.amount_spec(damage_kind) as int,
                            ap_pierce as int,
                        ),
                    )
                })
        }
    &&& (out.components@.len() == 0 ==> post.slots()[def] == pre.slots()[def])
    &&& (out.components@.len() > 0 ==> post.entity_at(def).actor.hp_spec() == (
    if out.total as int > pre.entity_at(def).actor.hp_spec() as int {
        0int
    } else {
        pre.entity_at(def).actor.hp_spec() - out.total
    }))
    &&& (out.components@.len() > 0 ==> post.entity_at(def).actor.listeners.pending_spec())
}

/// Everything scripted direct damage promises: no attack roll is made; a
/// single component is drawn, scaled at full multiplier, and mitigated
/// against the target's own armor for its kind less the armor piercing
/// value; whatever gets through comes off the target's hit points, never
/// below zero.  No other entity changes.
pub open spec fn take_damage_post(
    pre: Registry,
    post: Registry,
    target: int,
    min_damage: u32,
    max_damage: u32,
    ap_pierce: u32,
    damage_kind: DamageKind,
    dealt: Seq<(DamageKind, u32)>,
) -> bool {
    &&& post.slot_count() == pre.slot_count()
    &&& post.live(target)
    &&& forall|i: int|
        0 <= i < pre.slot_count() && i != target ==> (#[trigger] post.slots()[i])
            == pre.slots()[i]
    &&& entity_actor_only(pre.entity_at(target), post.entity_at(target))
    &&& actor_hp_only(pre.entity_at(target).actor, post.entity_at(target).actor)
    &&& forall|i: int| 0 <= i < dealt.len() ==> (#[trigger] dealt[i]).1 > 0
    &&& exists|rolls: Seq<u32>|
        {
            &&& #[trigger] valid_rolls(
                seq![Damage { min: min_damage, max: max_damage, kind: Some(damage_kind) }],
                rolls,
            )
            &&& dealt == spec_mitigate(
                spec_amounts(
                    seq![Damage { min: min_damage, max: max_damage, kind: Some(damage_kind) }],
                    rolls,
                    100u32,
                ),
                sat_sub_spec(
                    pre.entity_at(target).actor.stats.armor.amount_spec(damage_kind) as int,
                    ap_pierce as int,
                ),
            )
        }
    &&& (dealt.len() == 0 ==> post.slots()[target] == pre.slots()[target])
    &&& (dealt.len() > 0 ==> post.entity_at(target).actor.hp_spec() == (
    if sat_sum(dealt) as int > pre.entity_at(target).actor.hp_spec() as int {
        0int
    } else {
        pre.entity_at(target).actor.hp_spec() - sat_sum(dealt)
    }))
}

/// Only the stat snapshot and the notification flag moved on this actor.
pub open spec fn actor_stats_only(pre: ActorState, post: ActorState) -> bool {
    &&& post == (ActorState { stats: post.stats, listeners: post.listeners, ..pre })
    &&& post.listeners.ids_spec() == pre.listeners.ids_spec()
}

/// Only the actor moved at this entity: index, location, faction and the
/// removal mark are as they were.
pub open spec fn entity_actor_only(pre: EntityState, post: EntityState) -> bool {
    post == (EntityState { actor: post.actor, ..pre })
}

/// Only hit points and the notification flag moved on this actor.
pub open spec fn actor_hp_only(pre: ActorState, post: ActorState) -> bool {
    &&& post == (ActorState { hp: post.hp, listeners: post.listeners, ..pre })
    &&& post.listeners.ids_spec() == pre.listeners.ids_spec()
}

/// Only action points and the notification flag moved on this actor.
pub open spec fn actor_ap_only(pre: ActorState, post: ActorState) -> bool {
    &&& post == (ActorState { ap: post.ap, listeners: post.listeners, ..pre })
    &&& post.listeners.ids_spec() == pre.listeners.ids_spec()
}

} // verus!
