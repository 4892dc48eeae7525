//! The scripting bridge: thin index-based handles and target sets that
//! ability, item and AI scripts use to query and act on entities.
//!
//! Every inbound call re-validates its handles against the registry and
//! fails with a typed error instead of crashing; every filter silently
//! drops stale indices from its result set.

use vstd::prelude::*;

use crate::num::lemma_filter_take_step;
use crate::registry::{attack_post, spec_dist, special_attack_post, take_damage_post,
    AccuracyKind, AttackOutcome, EntityState, Registry};
use crate::rules::Rules;
use crate::damage::DamageKind;

verus! {

/// A typed script-level failure; scripts receive these instead of crashes.
#[derive(Clone, Copy, Debug, PartialEq, Eq, Structural)]
pub enum ScriptError {
    /// The handle holds no index at all (a deliberately invalid handle).
    NoIndex,
    /// The handle's index no longer resolves to a live entity.
    NotFound,
    /// Parent and target refer to the same entity where distinct ones are
    /// required.
    SameEntity,
    /// A target set holds no resolvable entity.
    EmptySet,
    /// A point is missing one of its coordinates.
    MissingCoordinate,
    /// A scripted damage range is inverted.
    InvalidRange,
}

/// A data-level failure while revalidating a saved target set.
#[derive(Clone, Copy, Debug, PartialEq, Eq, Structural)]
pub enum DataError {
    /// The saved parent index is missing from the remap table.
    InvalidParent(usize),
    /// A saved target index is missing from the remap table.
    InvalidTarget(usize),
}

/// A script-facing handle to one entity: an optional registry index.  A
/// handle without an index deliberately represents an invalid entity, so
/// scripts can signal failure gracefully.
#[derive(Clone, Copy, Debug, PartialEq, Eq)]
pub struct ScriptEntity {
    pub index: Option<usize>,
}

impl ScriptEntity {
    /// The deliberately invalid handle.
    pub fn invalid() -> (r: ScriptEntity)
        ensures
            r.index is None,
    {
        ScriptEntity { index: None }
    }

    /// A handle to the entity at `index`.
    pub fn new(index: usize) -> (r: ScriptEntity)
        ensures
            r.index == Some(index),
    {
        ScriptEntity { index: Some(index) }
    }

    /// A handle to a resolved entity.
    pub fn from(entity: &EntityState) -> (r: ScriptEntity)
        ensures
            r.index == Some(entity.index),
    {
        ScriptEntity { index: Some(entity.index) }
    }

    /// Fails when the two handles refer to the same entity; methods that
    /// need distinct parent and target call this before mutating anything.
    pub fn check_not_equal(&self, other: &ScriptEntity) -> (r: Result<(), ScriptError>)
        ensures
            self.index == other.index ==> r == Err::<(), ScriptError>(ScriptError::SameEntity),
            self.index != other.index ==> r == Ok::<(), ScriptError>(()),
    {
        let same: bool = match (self.index, other.index) {
            (None, None) => true,
            (Some(a), Some(b)) => a == b,
            _ => false,
        };
        if same {
            Err(ScriptError::SameEntity)
        } else {
            Ok(())
        }
    }

    /// The handle's index, or the error that tells the script the handle
    /// never held one.
    pub fn try_unwrap_index(&self) -> (r: Result<usize, ScriptError>)
        ensures
            self.index is Some ==> r == Ok::<usize, ScriptError>(self.index.unwrap()),
            self.index is None ==> r == Err::<usize, ScriptError>(ScriptError::NoIndex),
    {
        match self.index {
            None => Err(ScriptError::NoIndex),
            Some(index) => Ok(index),
        }
    }

    /// Resolves the handle against the registry.  The two failures are
    /// distinct: a handle with no index at all, and an index that no
    /// longer resolves to a live entity.
    pub fn try_unwrap<'a>(&self, mgr: &'a Registry) -> (r: Result<&'a EntityState, ScriptError>)
        ensures
            self.index is None ==> r is Err && r.unwrap_err() == ScriptError::NoIndex,
            self.index is Some && !mgr.live(self.index.unwrap() as int) ==> r is Err
                && r.unwrap_err() == ScriptError::NotFound,
            self.index is Some && mgr.live(self.index.unwrap() as int) ==> r is Ok && *r.unwrap()
                == mgr.entity_at(self.index.unwrap() as int),
    {
        match self.index {
            None => Err(ScriptError::NoIndex),
            Some(index) => match mgr.entity_checked(index) {
                None => Err(ScriptError::NotFound),
                Some(entity) => Ok(entity),
            },
        }
    }

    /// Whether the handle currently resolves to a live entity.
    pub fn is_valid(&self, mgr: &Registry) -> (r: bool)
        ensures
            r == (self.index is Some && mgr.live(self.index.unwrap() as int)),
    {
        match self.index {
            None => false,
            Some(index) => mgr.has_entity(index),
        }
    }

    /// Whether the resolved entity is out of hit points.
    pub fn is_dead(&self, mgr: &Registry) -> (r: Result<bool, ScriptError>)
        ensures
            self.index is None ==> r == Err::<bool, ScriptError>(ScriptError::NoIndex),
            self.index is Some && !mgr.live(self.index.unwrap() as int) ==> r == Err::<
                bool,
                ScriptError,
            >(ScriptError::NotFound),
            self.index is Some && mgr.live(self.index.unwrap() as int) ==> r == Ok::<
                bool,
                ScriptError,
            >(mgr.entity_at(self.index.unwrap() as int).actor.hp_spec() <= 0),
    {
        match self.try_unwrap(mgr) {
            Err(e) => Err(e),
            Ok(entity) => Ok(entity.actor.is_dead()),
        }
    }

    /// Whether the resolved entity can still pay for one attack this turn.
    pub fn has_ap_to_attack(&self, mgr: &Registry, rules: &Rules) -> (r: Result<
        bool,
        ScriptError,
    >)
        ensures
            self.index is None ==> r == Err::<bool, ScriptError>(ScriptError::NoIndex),
            self.index is Some && !mgr.live(self.index.unwrap() as int) ==> r == Err::<
                bool,
                ScriptError,
            >(ScriptError::NotFound),
            self.index is Some && mgr.live(self.index.unwrap() as int) ==> r == Ok::<
                bool,
                ScriptError,
            >(mgr.entity_at(self.index.unwrap() as int).actor.ap_spec() >= rules.attack_ap),
    {
        match self.try_unwrap(mgr) {
            Err(e) => Err(e),
            Ok(entity) => Ok(entity.actor.has_ap_to_attack(rules)),
        }
    }

    /// Whether the resolved parent can reach the resolved target in melee.
    pub fn can_reach(&self, mgr: &Registry, target: &ScriptEntity) -> (r: Result<
        bool,
        ScriptError,
    >)
        ensures
            r is Ok <==> (self.index is Some && mgr.live(self.index.unwrap() as int)
                && target.index is Some && mgr.live(target.index.unwrap() as int)),
            r is Ok ==> r == Ok::<bool, ScriptError>(
                spec_dist(
                    mgr.entity_at(self.index.unwrap() as int).location,
                    mgr.entity_at(target.index.unwrap() as int).location,
                ) < mgr.entity_at(self.index.unwrap() as int).actor.stats.reach,
            ),
            self.index is None ==> r == Err::<bool, ScriptError>(ScriptError::NoIndex),
            self.index is Some && !mgr.live(self.index.unwrap() as int) ==> r == Err::<
                bool,
                ScriptError,
            >(ScriptError::NotFound),
            self.index is Some && mgr.live(self.index.unwrap() as int) && target.index is None
                ==> r == Err::<bool, ScriptError>(ScriptError::NoIndex),
            self.index is Some && mgr.live(self.index.unwrap() as int) && target.index is Some
                && !mgr.live(target.index.unwrap() as int) ==> r == Err::<bool, ScriptError>(
                ScriptError::NotFound,
            ),
    {
        let parent = match self.try_unwrap(mgr) {
            Err(e) => {
                return Err(e);
            },
            Ok(p) => p,
        };
        let target = match target.try_unwrap(mgr) {
            Err(e) => {
                return Err(e);
            },
            Ok(t) => t,
        };
        Ok(parent.can_reach(target))
    }

    /// Spends action points on the resolved entity, never below zero.
    pub fn remove_ap(&self, mgr: &mut Registry, amount: u32) -> (r: Result<(), ScriptError>)
        requires
            old(mgr).wf(),
        ensures
            final(mgr).wf(),
            r is Err ==> final(mgr).slots() == old(mgr).slots(),
            self.index is None ==> r == Err::<(), ScriptError>(ScriptError::NoIndex),
            self.index is Some && !old(mgr).live(self.index.unwrap() as int) ==> r == Err::<
                (),
                ScriptError,
            >(ScriptError::NotFound),
            self.index is Some && old(mgr).live(self.index.unwrap() as int) ==> {
                let i = self.index.unwrap() as int;
                &&& r == Ok::<(), ScriptError>(())
                &&& final(mgr).entity_at(i).actor.ap_spec() == crate::num::sat_sub_spec(
                    old(mgr).entity_at(i).actor.ap_spec() as int,
                    amount as int,
                )
                &&& final(mgr).slots() == old(mgr).slots().update(
                    i,
                    Some(final(mgr).entity_at(i)),
                )
                &&& crate::registry::entity_actor_only(
                    old(mgr).entity_at(i),
                    final(mgr).entity_at(i),
                )
                &&& crate::registry::actor_ap_only(
                    old(mgr).entity_at(i).actor,
                    final(mgr).entity_at(i).actor,
                )
            },
    {
        let index = match self.try_unwrap_index() {
            Err(e) => {
                return Err(e);
            },
            Ok(i) => i,
        };
        if !mgr.has_entity(index) {
            return Err(ScriptError::NotFound);
        }
        mgr.remove_ap(index, amount);
        Ok(())
    }

    /// Removes hit points from the resolved entity, never below zero.
    pub fn remove_hp(&self, mgr: &mut Registry, amount: u32) -> (r: Result<(), ScriptError>)
        requires
            old(mgr).wf(),
        ensures
            final(mgr).wf(),
            r is Err ==> final(mgr).slots() == old(mgr).slots(),
            self.index is None ==> r == Err::<(), ScriptError>(ScriptError::NoIndex),
            self.index is Some && !old(mgr).live(self.index.unwrap() as int) ==> r == Err::<
                (),
                ScriptError,
            >(ScriptError::NotFound),
            self.index is Some && old(mgr).live(self.index.unwrap() as int) ==> {
                let i = self.index.unwrap() as int;
                &&& r == Ok::<(), ScriptError>(())
                &&& final(mgr).entity_at(i).actor.hp_spec() == (if amount as int > old(
                    mgr,
                ).entity_at(i).actor.hp_spec() as int {
                    0int
                } else {
                    old(mgr).entity_at(i).actor.hp_spec() - amount
                })
                &&& final(mgr).entity_at(i).actor.hp_spec() >= 0
                &&& final(mgr).slots() == old(mgr).slots().update(
                    i,
                    Some(final(mgr).entity_at(i)),
                )
                &&& crate::registry::entity_actor_only(
                    old(mgr).entity_at(i),
                    final(mgr).entity_at(i),
                )
                &&& crate::registry::actor_hp_only(
                    old(mgr).entity_at(i).actor,
                    final(mgr).entity_at(i).actor,
                )
            },
    {
        let index = match self.try_unwrap_index() {
            Err(e) => {
                return Err(e);
            },
            Ok(i) => i,
        };
        if !mgr.has_entity(index) {
            return Err(ScriptError::NotFound);
        }
        mgr.remove_hp(index, amount);
        Ok(())
    }

    /// Restores hit points on the resolved entity, never above its
    /// computed maximum.
    pub fn heal_damage(&self, mgr: &mut Registry, amount: u32) -> (r: Result<(), ScriptError>)
        requires
            old(mgr).wf(),
        ensures
            final(mgr).wf(),
            r is Err ==> final(mgr).slots() == old(mgr).slots(),
            self.index is None ==> r == Err::<(), ScriptError>(ScriptError::NoIndex),
            self.index is Some && !old(mgr).live(self.index.unwrap() as int) ==> r == Err::<
                (),
                ScriptError,
            >(ScriptError::NotFound),
            self.index is Some && old(mgr).live(self.index.unwrap() as int) ==> {
                let i = self.index.unwrap() as int;
                &&& r == Ok::<(), ScriptError>(())
                &&& final(mgr).entity_at(i).actor.hp_spec() == {
                    let pre = old(mgr).entity_at(i).actor;
                    let cap = if pre.stats.max_hp > i32::MAX as u32 {
                        i32::MAX as int
                    } else {
                        pre.stats.max_hp as int
                    };
                    if pre.hp_spec() + amount > cap {
                        cap
                    } else {
                        pre.hp_spec() + amount
                    }
                }
                &&& final(mgr).slots() == old(mgr).slots().update(
                    i,
                    Some(final(mgr).entity_at(i)),
                )
            },
    {
        let index = match self.try_unwrap_index() {
            Err(e) => {
                return Err(e);
            },
            Ok(i) => i,
        };
        if !mgr.has_entity(index) {
            return Err(ScriptError::NotFound);
        }
        mgr.heal_damage(index, amount);
        Ok(())
    }

    /// Recomputes the resolved entity's derived stats.
    pub fn compute_stats(&self, mgr: &mut Registry, rules: &Rules) -> (r: Result<
        (),
        ScriptError,
    >)
        requires
            old(mgr).wf(),
        ensures
            final(mgr).wf(),
            r is Err ==> final(mgr).slots() == old(mgr).slots(),
            self.index is None ==> r == Err::<(), ScriptError>(ScriptError::NoIndex),
            self.index is Some && !old(mgr).live(self.index.unwrap() as int) ==> r == Err::<
                (),
                ScriptError,
            >(ScriptError::NotFound),
            self.index is Some && old(mgr).live(self.index.unwrap() as int) ==> {
                let i = self.index.unwrap() as int;
                &&& r == Ok::<(), ScriptError>(())
                &&& crate::actor::stats_recomputed(
                    old(mgr).entity_at(i).actor,
                    final(mgr).entity_at(i).actor,
                    *rules,
                    old(mgr).entity_at(i).actor.inventory_spec(),
                )
                &&& final(mgr).slots() == old(mgr).slots().update(
                    i,
                    Some(final(mgr).entity_at(i)),
                )
            },
    {
        let index = match self.try_unwrap_index() {
            Err(e) => {
                return Err(e);
            },
            Ok(i) => i,
        };
        if !mgr.has_entity(index) {
            return Err(ScriptError::NotFound);
        }
        mgr.compute_stats(rules, index);
        Ok(())
    }

    /// Rolls an immediate standard weapon attack against `target`.  Both
    /// handles are validated first, and parent and target must be
    /// distinct; nothing changes when validation fails.
    pub fn weapon_attack(&self, mgr: &mut Registry, rules: &Rules, target: &ScriptEntity) -> (r:
        Result<AttackOutcome, ScriptError>)
        requires
            old(mgr).wf(),
        ensures
            final(mgr).wf(),
            r is Err ==> final(mgr).slots() == old(mgr).slots(),
            self.index is None || target.index is None ==> r is Err && r.unwrap_err()
                == ScriptError::NoIndex,
            self.index is Some && target.index is Some && self.index == target.index ==> r is Err
                && r.unwrap_err() == ScriptError::SameEntity,
            self.index is Some && target.index is Some && self.index != target.index && !(old(
                mgr,
            ).live(self.index.unwrap() as int) && old(mgr).live(target.index.unwrap() as int))
                ==> r is Err && r.unwrap_err() == ScriptError::NotFound,
            self.index is Some && target.index is Some && self.index != target.index && old(
                mgr,
            ).live(self.index.unwrap() as int) && old(mgr).live(target.index.unwrap() as int)
                ==> r is Ok && attack_post(
                *old(mgr),
                *final(mgr),
                *rules,
                self.index.unwrap() as int,
                target.index.unwrap() as int,
                r.unwrap(),
            ),
    {
        let parent_index = match self.try_unwrap_index() {
            Err(e) => {
                return Err(e);
            },
            Ok(i) => i,
        };
        let target_index = match target.try_unwrap_index() {
            Err(e) => {
                return Err(e);
            },
            Ok(i) => i,
        };
        match self.check_not_equal(target) {
            Err(e) => {
                return Err(e);
            },
            Ok(()) => {},
        }
        if !mgr.has_entity(parent_index) || !mgr.has_entity(target_index) {
            return Err(ScriptError::NotFound);
        }
        Ok(mgr.attack(rules, parent_index, target_index))
    }

    /// Rolls an immediate special attack against `target` with an explicit
    /// damage range, armor piercing and kind.  An inverted range is
    /// rejected before anything changes.
    pub fn special_attack(
        &self,
        mgr: &mut Registry,
        rules: &Rules,
        target: &ScriptEntity,
        min_damage: u32,
        max_damage: u32,
        ap_pierce: u32,
        damage_kind: DamageKind,
        accuracy_kind: AccuracyKind,
    ) -> (r: Result<AttackOutcome, ScriptError>)
        requires
            old(mgr).wf(),
        ensures
            final(mgr).wf(),
            r is Err ==> final(mgr).slots() == old(mgr).slots(),
            self.index is None || target.index is None ==> r is Err && r.unwrap_err()
                == ScriptError::NoIndex,
            self.index is Some && target.index is Some && self.index == target.index ==> r is Err
                && r.unwrap_err() == ScriptError::SameEntity,
            self.index is Some && target.index is Some && self.index != target.index && min_damage
                > max_damage ==> r is Err && r.unwrap_err() == ScriptError::InvalidRange,
            self.index is Some && target.index is Some && self.index != target.index && min_damage
                <= max_damage && !(old(mgr).live(self.index.unwrap() as int) && old(mgr).live(
                target.index.unwrap() as int,
            )) ==> r is Err && r.unwrap_err() == ScriptError::NotFound,
            self.index is Some && target.index is Some && self.index != target.index && min_damage
                <= max_damage && old(mgr).live(self.index.unwrap() as int) && old(mgr).live(
                target.index.unwrap() as int,
            ) ==> r is Ok && special_attack_post(
                *old(mgr),
                *final(mgr),
                *rules,
                self.index.unwrap() as int,
                target.index.unwrap() as int,
                min_damage,
                max_damage,
                ap_pierce,
                damage_kind,
                accuracy_kind,
                r.unwrap(),
            ),
    {
        let parent_index = match self.try_unwrap_index() {
            Err(e) => {
                return Err(e);
            },
            Ok(i) => i,
        };
        let target_index = match target.try_unwrap_index() {
            Err(e) => {
                return Err(e);
            },
            Ok(i) => i,
        };
        match self.check_not_equal(target) {
            Err(e) => {
                return Err(e);
            },
            Ok(()) => {},
        }
        if min_damage > max_damage {
            return Err(ScriptError::InvalidRange);
        }
        if !mgr.has_entity(parent_index) || !mgr.has_entity(target_index) {
            return Err(ScriptError::NotFound);
        }
        Ok(
            mgr.special_attack(
                rules,
                parent_index,
                target_index,
                min_damage,
                max_damage,
                ap_pierce,
                damage_kind,
                accuracy_kind,
            ),
        )
    }

    /// Applies scripted direct damage to this entity, mitigated by its own
    /// armor.  An inverted range is rejected before anything changes.
    pub fn take_damage(
        &self,
        mgr: &mut Registry,
        min_damage: u32,
        max_damage: u32,
        ap_pierce: u32,
        damage_kind: DamageKind,
    ) -> (r: Result<Vec<(DamageKind, u32)>, ScriptError>)
        requires
            old(mgr).wf(),
        ensures
            final(mgr).wf(),
            r is Err ==> final(mgr).slots() == old(mgr).slots(),
            self.index is None ==> r is Err && r.unwrap_err() == ScriptError::NoIndex,
            self.index is Some && min_damage > max_damage ==> r is Err && r.unwrap_err()
                == ScriptError::InvalidRange,
            self.index is Some && min_damage <= max_damage && !old(mgr).live(
                self.index.unwrap() as int,
            ) ==> r is Err && r.unwrap_err() == ScriptError::NotFound,
            self.index is Some && min_damage <= max_damage && old(mgr).live(
                self.index.unwrap() as int,
            ) ==> r is Ok && take_damage_post(
                *old(mgr),
                *final(mgr),
                self.index.unwrap() as int,
                min_damage,
                max_damage,
                ap_pierce,
                damage_kind,
                r.unwrap()@,
            ),
    {
        let index = match self.try_unwrap_index() {
            Err(e) => {
                return Err(e);
            },
            Ok(i) => i,
        };
        if min_damage > max_damage {
            return Err(ScriptError::InvalidRange);
        }
        if !mgr.has_entity(index) {
            return Err(ScriptError::NotFound);
        }
        Ok(mgr.take_damage(index, min_damage, max_damage, ap_pierce, damage_kind))
    }
}

/// A set of script-facing entity handles: a parent, an ordered list of
/// optional target indices, and targeter data (a selected point, affected
/// points, and an optional surface reference).  Filters derive new sets
/// and never mutate; stale indices are silently dropped, never an error.
#[derive(Clone, Debug, PartialEq)]
pub struct ScriptEntitySet {
    pub parent: usize,
    pub selected_point: Option<(i32, i32)>,
    pub affected_points: Vec<(i32, i32)>,
    pub indices: Vec<Option<usize>>,
    pub surface: Option<u32>,
}

/// The first resolvable handle in a list of optional indices.
pub open spec fn first_some(s: Seq<Option<usize>>) -> Option<usize>
    decreases s.len(),
{
    if s.len() == 0 {
        None
    } else if s[0] is Some {
        s[0]
    } else {
        first_some(s.subrange(1, s.len() as int))
    }
}

/// The new index an old index maps to across a save/load boundary: the
/// first matching entry of the remap table.
pub open spec fn remap_lookup(remap: Seq<(usize, usize)>, from: usize) -> Option<usize>
    decreases remap.len(),
{
    if remap.len() == 0 {
        None
    } else if remap[0].0 == from {
        Some(remap[0].1)
    } else {
        remap_lookup(remap.subrange(1, remap.len() as int), from)
    }
}

/// The first saved target whose index the remap table does not know.
pub open spec fn first_bad_target(s: Seq<Option<usize>>, remap: Seq<(usize, usize)>) -> Option<
    usize,
>
    decreases s.len(),
{
    if s.len() == 0 {
        None
    } else if s[0] is Some && remap_lookup(remap, s[0].unwrap()) is None {
        Some(s[0].unwrap())
    } else {
        first_bad_target(s.subrange(1, s.len() as int), remap)
    }
}

/// The target list with every index sent through the remap table; holes
/// stay holes.
pub open spec fn remapped_indices(s: Seq<Option<usize>>, remap: Seq<(usize, usize)>) -> Seq<
    Option<usize>,
> {
    Seq::new(
        s.len(),
        |j: int|
            if s[j] is Some {
                remap_lookup(remap, s[j].unwrap())
            } else {
                None
            },
    )
}

/// Looks an old index up in the remap table.
fn lookup_remap(remap: &Vec<(usize, usize)>, from: usize) -> (r: Option<usize>)
    ensures
        r == remap_lookup(remap@, from),
{
    let n = remap.len();
    let mut i: usize = 0;
    proof {
        assert(remap@.skip(0) =~= remap@);
    }
    while i < n
        invariant
            i <= n,
            n == remap@.len(),
            remap_lookup(remap@, from) == remap_lookup(remap@.skip(i as int), from),
        decreases n - i,
    {
        let (old_idx, new_idx) = remap[i];
        proof {
            assert(remap@.skip(i as int)[0] == remap@[i as int]);
            assert(remap@.skip(i as int).subrange(1, remap@.skip(i as int).len() as int)
                =~= remap@.skip(i as int + 1));
        }
        if old_idx == from {
            return Some(new_idx);
        }
        i = i + 1;
    }
    proof {
        assert(remap@.skip(n as int) =~= Seq::<(usize, usize)>::empty());
    }
    None
}

/// Copies a point list.
fn copy_points(points: &Vec<(i32, i32)>) -> (r: Vec<(i32, i32)>)
    ensures
        r@ == points@,
{
    let n = points.len();
    let mut out: Vec<(i32, i32)> = Vec::new();
    let mut i: usize = 0;
    while i < n
        invariant
            i <= n,
            n == points@.len(),
            out@ =~= points@.take(i as int),
        decreases n - i,
    {
        out.push(points[i]);
        proof {
            assert(out@ =~= points@.take(i as int + 1));
        }
        i = i + 1;
    }
    proof {
        assert(points@.take(n as int) =~= points@);
    }
    out
}

/// Copies an index list.
fn copy_indices(indices: &Vec<Option<usize>>) -> (r: Vec<Option<usize>>)
    ensures
        r@ == indices@,
{
    let n = indices.len();
    let mut out: Vec<Option<usize>> = Vec::new();
    let mut i: usize = 0;
    while i < n
        invariant
            i <= n,
            n == indices@.len(),
            out@ =~= indices@.take(i as int),
        decreases n - i,
    {
        out.push(indices[i]);
        proof {
            assert(out@ =~= indices@.take(i as int + 1));
        }
        i = i + 1;
    }
    proof {
        assert(indices@.take(n as int) =~= indices@);
    }
    out
}

/// One of the pure filter transforms over (parent, candidate) pairs.
#[derive(Clone, Copy, Debug, PartialEq, Eq, Structural)]
pub enum FilterKind {
    /// Drops the parent itself from the targets.
    WithoutSelf,
    /// Keeps candidates whose faction is hostile to the parent's.
    Hostile,
    /// Keeps candidates whose faction is not hostile to the parent's.
    Friendly,
    /// Keeps candidates the parent can reach in melee.
    Reachable,
    /// Keeps candidates the parent can attack now: enough action points
    /// and within reach.
    Attackable,
    /// Keeps candidates that could hit the parent in melee without
    /// moving: melee attackers, not disabled, with the parent in reach.
    Threatening,
}

/// Whether a filter keeps one candidate handle: it must hold an index,
/// the index must resolve, and the resolved entity must satisfy the
/// filter's predicate against the parent.  Stale handles are dropped.
pub open spec fn keeps(
    mgr: Registry,
    rules: Rules,
    parent: EntityState,
    kind: FilterKind,
    idx: Option<usize>,
) -> bool {
    match idx {
        None => false,
        Some(i) => mgr.live(i as int) && {
            let e = mgr.entity_at(i as int);
            match kind {
                FilterKind::WithoutSelf => e.index != parent.index,
                FilterKind::Hostile => parent.faction.hostile_to_spec(e.faction),
                FilterKind::Friendly => !parent.faction.hostile_to_spec(e.faction),
                FilterKind::Reachable => spec_dist(parent.location, e.location)
                    < parent.actor.stats.reach,
                FilterKind::Attackable => parent.actor.ap_spec() >= rules.attack_ap && spec_dist(
                    parent.location,
                    e.location,
                ) < parent.actor.stats.reach,
                FilterKind::Threatening => e.actor.stats.melee && !e.actor.stats.attack_disabled
                    && spec_dist(e.location, parent.location) < e.actor.stats.reach,
            }
        },
    }
}

/// The distance-and-visibility keep decision for one candidate at one
/// position of the list: it must resolve, the caller-supplied line of
/// visibility verdict for that position must hold, and the candidate must
/// be within the given distance of the parent.
pub open spec fn keeps_visible(
    mgr: Registry,
    parent: EntityState,
    dist: u32,
    idx: Option<usize>,
    los: bool,
) -> bool {
    match idx {
        None => false,
        Some(i) => mgr.live(i as int) && los && spec_dist(
            parent.location,
            mgr.entity_at(i as int).location,
        ) <= dist,
    }
}

/// The visibility-filtered prefix of a target list.
pub open spec fn vis_upto(
    mgr: Registry,
    parent: EntityState,
    dist: u32,
    s: Seq<Option<usize>>,
    los: Seq<bool>,
    i: int,
) -> Seq<Option<usize>>
    decreases i,
{
    if i <= 0 {
        Seq::empty()
    } else {
        let prev = vis_upto(mgr, parent, dist, s, los, i - 1);
        if keeps_visible(mgr, parent, dist, s[i - 1], los[i - 1]) {
            prev.push(s[i - 1])
        } else {
            prev
        }
    }
}

/// Whether an entity is a target the parent's scripts may see: hidden
/// hostiles, the dead, and entities in other areas are left out.
pub open spec fn target_ok(parent: EntityState, e: EntityState) -> bool {
    &&& !(parent.faction.hostile_to_spec(e.faction) && e.actor.stats.hidden)
    &&& e.actor.hp_spec() > 0
    &&& e.location.area == parent.location.area
}

/// The target handles collected from the first `i` registry slots.
pub open spec fn targets_upto(mgr: Registry, parent: EntityState, i: int) -> Seq<Option<usize>>
    decreases i,
{
    if i <= 0 {
        Seq::empty()
    } else {
        let prev = targets_upto(mgr, parent, i - 1);
        if mgr.live(i - 1) && target_ok(parent, mgr.entity_at(i - 1)) {
            prev.push(Some((i - 1) as usize))
        } else {
            prev
        }
    }
}

impl ScriptEntity {
    /// Collects every possible target for this entity's scripts: all live
    /// entities in the same area, leaving out the dead and the hidden
    /// hostiles.
    pub fn targets(&self, mgr: &Registry) -> (r: Result<ScriptEntitySet, ScriptError>)
        ensures
            self.index is None ==> r is Err && r.unwrap_err() == ScriptError::NoIndex,
            self.index is Some && !mgr.live(self.index.unwrap() as int) ==> r is Err
                && r.unwrap_err() == ScriptError::NotFound,
            self.index is Some && mgr.live(self.index.unwrap() as int) ==> r is Ok && {
                let out = r.unwrap();
                &&& out.parent == self.index.unwrap()
                &&& out.indices@ == targets_upto(
                    *mgr,
                    mgr.entity_at(self.index.unwrap() as int),
                    mgr.slot_count(),
                )
                &&& out.selected_point is None
                &&& out.affected_points@.len() == 0
                &&& out.surface is None
            },
    {
        let parent_index = match self.try_unwrap_index() {
            Err(e) => {
                return Err(e);
            },
            Ok(i) => i,
        };
        if !mgr.has_entity(parent_index) {
            return Err(ScriptError::NotFound);
        }
        let n = mgr.len();
        let mut indices: Vec<Option<usize>> = Vec::new();
        let mut i: usize = 0;
        while i < n
            invariant
                i <= n,
                n == mgr.slot_count(),
                mgr.live(parent_index as int),
                indices@ == targets_upto(
                    *mgr,
                    mgr.entity_at(parent_index as int),
                    i as int,
                ),
            decreases n - i,
        {
            let parent = mgr.entity(parent_index);
            match mgr.entity_checked(i) {
                None => {},
                Some(e) => {
                    let hidden_hostile = parent.is_hostile(e) && e.actor.stats.hidden;
                    let dead = e.actor.is_dead();
                    let same_area = e.location.area == parent.location.area;
                    if !hidden_hostile && !dead && same_area {
                        indices.push(Some(i));
                    }
                },
            }
            i = i + 1;
        }
        Ok(
            ScriptEntitySet {
                parent: parent_index,
                selected_point: None,
                affected_points: Vec::new(),
                indices,
                surface: None,
            },
        )
    }
}

impl ScriptEntitySet {
    /// An empty set under the given parent.
    pub fn with_parent(parent: usize) -> (r: ScriptEntitySet)
        ensures
            r.parent == parent,
            r.indices@.len() == 0,
            r.selected_point is None,
            r.affected_points@.len() == 0,
            r.surface is None,
    {
        ScriptEntitySet {
            parent,
            indices: Vec::new(),
            selected_point: None,
            affected_points: Vec::new(),
            surface: None,
        }
    }

    /// The set of one target under one parent.
    pub fn from_pair(parent: &EntityState, target: &EntityState) -> (r: ScriptEntitySet)
        ensures
            r.parent == parent.index,
            r.indices@ == seq![Some(target.index)],
            r.selected_point is None,
            r.affected_points@.len() == 0,
            r.surface is None,
    {
        let mut indices: Vec<Option<usize>> = Vec::new();
        indices.push(Some(target.index));
        proof {
            assert(indices@ =~= seq![Some(target.index)]);
        }
        ScriptEntitySet {
            parent: parent.index,
            selected_point: None,
            affected_points: Vec::new(),
            indices,
            surface: None,
        }
    }

    /// A set under the given parent holding the given target handles.
    pub fn new(parent: &EntityState, entities: &Vec<Option<usize>>) -> (r: ScriptEntitySet)
        ensures
            r.parent == parent.index,
            r.indices@ == entities@,
            r.selected_point is None,
            r.affected_points@.len() == 0,
            r.surface is None,
    {
        ScriptEntitySet {
            parent: parent.index,
            selected_point: None,
            affected_points: Vec::new(),
            indices: copy_indices(entities),
            surface: None,
        }
    }

    /// Appends another set's targets and takes over its targeter data.
    pub fn append(&mut self, other: &ScriptEntitySet)
        ensures
            final(self).parent == old(self).parent,
            final(self).indices@ == old(self).indices@ + other.indices@,
            final(self).selected_point == other.selected_point,
            final(self).affected_points@ == old(self).affected_points@ + other.affected_points@,
            final(self).surface == other.surface,
    {
        let mut more = copy_indices(&other.indices);
        self.indices.append(&mut more);
        self.selected_point = other.selected_point;
        let mut pts = copy_points(&other.affected_points);
        self.affected_points.append(&mut pts);
        self.surface = other.surface;
    }

    /// Whether the set holds no target handles at all; targeter data does
    /// not count.
    pub fn is_empty(&self) -> (r: bool)
        ensures
            r == (self.indices@.len() == 0),
    {
        self.indices.len() == 0
    }

    /// The parent as a script handle.
    pub fn parent_entity(&self) -> (r: ScriptEntity)
        ensures
            r.index == Some(self.parent),
    {
        ScriptEntity { index: Some(self.parent) }
    }

    /// The first handle in the set that holds an index, or the error that
    /// tells the script the set is empty.
    pub fn first(&self) -> (r: Result<ScriptEntity, ScriptError>)
        ensures
            first_some(self.indices@) is Some ==> r is Ok && r.unwrap().index == first_some(
                self.indices@,
            ),
            first_some(self.indices@) is None ==> r is Err && r.unwrap_err()
                == ScriptError::EmptySet,
    {
        let n = self.indices.len();
        let mut i: usize = 0;
        proof {
            assert(self.indices@.skip(0) =~= self.indices@);
        }
        while i < n
            invariant
                i <= n,
                n == self.indices@.len(),
                first_some(self.indices@) == first_some(self.indices@.skip(i as int)),
            decreases n - i,
        {
            proof {
                assert(self.indices@.skip(i as int)[0] == self.indices@[i as int]);
                assert(self.indices@.skip(i as int).subrange(
                    1,
                    self.indices@.skip(i as int).len() as int,
                ) =~= self.indices@.skip(i as int + 1));
            }
            match self.indices[i] {
                Some(index) => {
                    return Ok(ScriptEntity { index: Some(index) });
                },
                None => {},
            }
            i = i + 1;
        }
        proof {
            assert(self.indices@.skip(n as int) =~= Seq::<Option<usize>>::empty());
        }
        Err(ScriptError::EmptySet)
    }

    /// Revalidates a set loaded from a save against the index remap
    /// table.  Fails with a data error naming the missing parent or
    /// target, leaving the set untouched; on success every index is
    /// remapped and the targeter data is kept.
    pub fn update_entity_refs_on_load(&mut self, remap: &Vec<(usize, usize)>) -> (r: Result<
        (),
        DataError,
    >)
        ensures
            remap_lookup(remap@, old(self).parent) is None ==> r == Err::<(), DataError>(
                DataError::InvalidParent(old(self).parent),
            ) && *final(self) == *old(self),
            remap_lookup(remap@, old(self).parent) is Some && first_bad_target(
                old(self).indices@,
                remap@,
            ) is Some ==> r == Err::<(), DataError>(
                DataError::InvalidTarget(first_bad_target(old(self).indices@, remap@).unwrap()),
            ) && *final(self) == *old(self),
            remap_lookup(remap@, old(self).parent) is Some && first_bad_target(
                old(self).indices@,
                remap@,
            ) is None ==> {
                &&& r == Ok::<(), DataError>(())
                &&& final(self).parent == remap_lookup(remap@, old(self).parent).unwrap()
                &&& final(self).indices@ == remapped_indices(old(self).indices@, remap@)
                &&& final(self).selected_point == old(self).selected_point
                &&& final(self).affected_points@ == old(self).affected_points@
                &&& final(self).surface == old(self).surface
            },
    {
        let new_parent = match lookup_remap(remap, self.parent) {
            None => {
                return Err(DataError::InvalidParent(self.parent));
            },
            Some(p) => p,
        };
        let n = self.indices.len();
        let mut new_indices: Vec<Option<usize>> = Vec::new();
        let mut j: usize = 0;
        proof {
            assert(self.indices@.skip(0) =~= self.indices@);
        }
        while j < n
            invariant
                j <= n,
                n == self.indices@.len(),
                *self == *old(self),
                remap_lookup(remap@, old(self).parent) is Some,
                first_bad_target(self.indices@, remap@) == first_bad_target(
                    self.indices@.skip(j as int),
                    remap@,
                ),
                new_indices@ =~= remapped_indices(self.indices@, remap@).take(j as int),
            decreases n - j,
        {
            proof {
                assert(self.indices@.skip(j as int)[0] == self.indices@[j as int]);
                assert(self.indices@.skip(j as int).subrange(
                    1,
                    self.indices@.skip(j as int).len() as int,
                ) =~= self.indices@.skip(j as int + 1));
            }
            match self.indices[j] {
                None => {
                    new_indices.push(None);
                },
                Some(index) => match lookup_remap(remap, index) {
                    None => {
                        return Err(DataError::InvalidTarget(index));
                    },
                    Some(new_index) => {
                        new_indices.push(Some(new_index));
                    },
                },
            }
            proof {
                assert(new_indices@ =~= remapped_indices(self.indices@, remap@).take(
                    j as int + 1,
                ));
            }
            j = j + 1;
        }
        proof {
            assert(self.indices@.skip(n as int) =~= Seq::<Option<usize>>::empty());
            assert(remapped_indices(self.indices@, remap@).take(n as int) =~= remapped_indices(
                self.indices@,
                remap@,
            ));
        }
        self.parent = new_parent;
        self.indices = new_indices;
        Ok(())
    }

    /// Derives a new set holding only the targets a filter keeps.  The
    /// parent must resolve; stale targets are silently dropped.
    pub fn filter_entities(&self, mgr: &Registry, rules: &Rules, kind: FilterKind) -> (r: Result<
        ScriptEntitySet,
        ScriptError,
    >)
        ensures
            !mgr.live(self.parent as int) ==> r is Err && r.unwrap_err() == ScriptError::NotFound,
            mgr.live(self.parent as int) ==> r is Ok && {
                let out = r.unwrap();
                &&& out.parent == self.parent
                &&& out.indices@ == self.indices@.filter(
                    |o: Option<usize>|
                        keeps(*mgr, *rules, mgr.entity_at(self.parent as int), kind, o),
                )
                &&& out.selected_point == self.selected_point
                &&& out.affected_points@ == self.affected_points@
                &&& out.surface == self.surface
            },
    {
        if !mgr.has_entity(self.parent) {
            return Err(ScriptError::NotFound);
        }
        let ghost pred = |o: Option<usize>|
            keeps(*mgr, *rules, mgr.entity_at(self.parent as int), kind, o);
        let n = self.indices.len();
        let mut kept: Vec<Option<usize>> = Vec::new();
        let mut i: usize = 0;
        proof {
            assert(self.indices@.take(0).filter(pred) =~= Seq::<Option<usize>>::empty());
        }
        while i < n
            invariant
                i <= n,
                n == self.indices@.len(),
                mgr.live(self.parent as int),
                pred == (|o: Option<usize>|
                    keeps(*mgr, *rules, mgr.entity_at(self.parent as int), kind, o)),
                kept@ == self.indices@.take(i as int).filter(pred),
            decreases n - i,
        {
            let entry = self.indices[i];
            let keep: bool = match entry {
                None => false,
                Some(idx) => match mgr.entity_checked(idx) {
                    None => false,
                    Some(e) => {
                        let parent = mgr.entity(self.parent);
                        match kind {
                            FilterKind::WithoutSelf => e.index != parent.index,
                            FilterKind::Hostile => parent.is_hostile(e),
                            FilterKind::Friendly => !parent.is_hostile(e),
                            FilterKind::Reachable => parent.can_reach(e),
                            FilterKind::Attackable => {
                                let d = parent.dist_to_entity(e);
                                parent.actor.can_attack(rules, d)
                            },
                            FilterKind::Threatening => e.actor.stats.melee
                                && !e.actor.stats.attack_disabled && e.can_reach(parent),
                        }
                    },
                },
            };
            proof {
                assert(keep == pred(entry));
                lemma_filter_take_step(self.indices@, pred, i as int);
            }
            if keep {
                kept.push(entry);
            }
            i = i + 1;
        }
        proof {
            assert(self.indices@.take(n as int) =~= self.indices@);
        }
        Ok(
            ScriptEntitySet {
                parent: self.parent,
                selected_point: self.selected_point,
                affected_points: copy_points(&self.affected_points),
                indices: kept,
                surface: self.surface,
            },
        )
    }

    /// All the set's data, without the parent as a target.
    pub fn without_self(&self, mgr: &Registry, rules: &Rules) -> (r: Result<
        ScriptEntitySet,
        ScriptError,
    >)
        ensures
            !mgr.live(self.parent as int) ==> r is Err && r.unwrap_err() == ScriptError::NotFound,
            mgr.live(self.parent as int) ==> r is Ok && r.unwrap().indices@ == self.indices@.filter(
                |o: Option<usize>|
                    keeps(
                        *mgr,
                        *rules,
                        mgr.entity_at(self.parent as int),
                        FilterKind::WithoutSelf,
                        o,
                    ),
            ) && r.unwrap().parent == self.parent,
    {
        self.filter_entities(mgr, rules, FilterKind::WithoutSelf)
    }

    /// Only the targets hostile to the parent.
    pub fn hostile(&self, mgr: &Registry, rules: &Rules) -> (r: Result<
        ScriptEntitySet,
        ScriptError,
    >)
        ensures
            !mgr.live(self.parent as int) ==> r is Err && r.unwrap_err() == ScriptError::NotFound,
            mgr.live(self.parent as int) ==> r is Ok && r.unwrap().indices@ == self.indices@.filter(
                |o: Option<usize>|
                    keeps(*mgr, *rules, mgr.entity_at(self.parent as int), FilterKind::Hostile, o),
            ) && r.unwrap().parent == self.parent,
    {
        self.filter_entities(mgr, rules, FilterKind::Hostile)
    }

    /// Only the targets not hostile to the parent.
    pub fn friendly(&self, mgr: &Registry, rules: &Rules) -> (r: Result<
        ScriptEntitySet,
        ScriptError,
    >)
        ensures
            !mgr.live(self.parent as int) ==> r is Err && r.unwrap_err() == ScriptError::NotFound,
            mgr.live(self.parent as int) ==> r is Ok && r.unwrap().indices@ == self.indices@.filter(
                |o: Option<usize>|
                    keeps(*mgr, *rules, mgr.entity_at(self.parent as int), FilterKind::Friendly, o),
            ) && r.unwrap().parent == self.parent,
    {
        self.filter_entities(mgr, rules, FilterKind::Friendly)
    }

    /// Only the targets the parent can reach in melee.
    pub fn reachable(&self, mgr: &Registry, rules: &Rules) -> (r: Result<
        ScriptEntitySet,
        ScriptError,
    >)
        ensures
            !mgr.live(self.parent as int) ==> r is Err && r.unwrap_err() == ScriptError::NotFound,
            mgr.live(self.parent as int) ==> r is Ok && r.unwrap().indices@ == self.indices@.filter(
                |o: Option<usize>|
                    keeps(
                        *mgr,
                        *rules,
                        mgr.entity_at(self.parent as int),
                        FilterKind::Reachable,
                        o,
                    ),
            ) && r.unwrap().parent == self.parent,
    {
        self.filter_entities(mgr, rules, FilterKind::Reachable)
    }

    /// Only the targets the parent can attack now: it must have the action
    /// points for an attack, and the target must be in reach.
    pub fn attackable(&self, mgr: &Registry, rules: &Rules) -> (r: Result<
        ScriptEntitySet,
        ScriptError,
    >)
        ensures
            !mgr.live(self.parent as int) ==> r is Err && r.unwrap_err() == ScriptError::NotFound,
            mgr.live(self.parent as int) ==> r is Ok && r.unwrap().indices@ == self.indices@.filter(
                |o: Option<usize>|
                    keeps(
                        *mgr,
                        *rules,
                        mgr.entity_at(self.parent as int),
                        FilterKind::Attackable,
                        o,
                    ),
            ) && r.unwrap().parent == self.parent,
    {
        self.filter_entities(mgr, rules, FilterKind::Attackable)
    }

    /// Only the targets that threaten the parent: melee attackers, not
    /// disabled, with the parent in their reach.
    pub fn threatening(&self, mgr: &Registry, rules: &Rules) -> (r: Result<
        ScriptEntitySet,
        ScriptError,
    >)
        ensures
            !mgr.live(self.parent as int) ==> r is Err && r.unwrap_err() == ScriptError::NotFound,
            mgr.live(self.parent as int) ==> r is Ok && r.unwrap().indices@ == self.indices@.filter(
                |o: Option<usize>|
                    keeps(
                        *mgr,
                        *rules,
                        mgr.entity_at(self.parent as int),
                        FilterKind::Threatening,
                        o,
                    ),
            ) && r.unwrap().parent == self.parent,
    {
        self.filter_entities(mgr, rules, FilterKind::Threatening)
    }

    /// Only the targets within `dist` of the parent that the caller's
    /// line-of-visibility verdicts confirm, one verdict per position of
    /// the target list.  The visibility computation belongs to the area
    /// map; this filter consumes its verdicts.
    pub fn visible_within(&self, mgr: &Registry, dist: u32, los: &Vec<bool>) -> (r: Result<
        ScriptEntitySet,
        ScriptError,
    >)
        requires
            los@.len() == self.indices@.len(),
        ensures
            !mgr.live(self.parent as int) ==> r is Err && r.unwrap_err() == ScriptError::NotFound,
            mgr.live(self.parent as int) ==> r is Ok && {
                let out = r.unwrap();
                &&& out.parent == self.parent
                &&& out.indices@ == vis_upto(
                    *mgr,
                    mgr.entity_at(self.parent as int),
                    dist,
                    self.indices@,
                    los@,
                    self.indices@.len() as int,
                )
                &&& out.selected_point == self.selected_point
                &&& out.affected_points@ == self.affected_points@
                &&& out.surface == self.surface
            },
    {
        if !mgr.has_entity(self.parent) {
            return Err(ScriptError::NotFound);
        }
        let n = self.indices.len();
        let mut kept: Vec<Option<usize>> = Vec::new();
        let mut i: usize = 0;
        while i < n
            invariant
                i <= n,
                n == self.indices@.len(),
                los@.len() == self.indices@.len(),
                mgr.live(self.parent as int),
                kept@ == vis_upto(
                    *mgr,
                    mgr.entity_at(self.parent as int),
                    dist,
                    self.indices@,
                    los@,
                    i as int,
                ),
            decreases n - i,
        {
            let entry = self.indices[i];
            let keep: bool = match entry {
                None => false,
                Some(idx) => match mgr.entity_checked(idx) {
                    None => false,
                    Some(e) => {
                        let parent = mgr.entity(self.parent);
                        los[i] && parent.dist_to_entity(e) <= dist
                    },
                },
            };
            proof {
                assert(keep == keeps_visible(
                    *mgr,
                    mgr.entity_at(self.parent as int),
                    dist,
                    entry,
                    los@[i as int],
                ));
            }
            if keep {
                kept.push(entry);
            }
            i = i + 1;
        }
        Ok(
            ScriptEntitySet {
                parent: self.parent,
                selected_point: self.selected_point,
                affected_points: copy_points(&self.affected_points),
                indices: kept,
                surface: self.surface,
            },
        )
    }

    /// As [`Self::visible_within`] with no distance bound: only the
    /// caller's visibility verdicts decide.
    pub fn visible(&self, mgr: &Registry, los: &Vec<bool>) -> (r: Result<
        ScriptEntitySet,
        ScriptError,
    >)
        requires
            los@.len() == self.indices@.len(),
        ensures
            !mgr.live(self.parent as int) ==> r is Err && r.unwrap_err() == ScriptError::NotFound,
            mgr.live(self.parent as int) ==> r is Ok && {
                let out = r.unwrap();
                &&& out.parent == self.parent
                &&& out.indices@ == vis_upto(
                    *mgr,
                    mgr.entity_at(self.parent as int),
                    u32::MAX,
                    self.indices@,
                    los@,
                    self.indices@.len() as int,
                )
                &&& out.selected_point == self.selected_point
                &&& out.affected_points@ == self.affected_points@
                &&& out.surface == self.surface
            },
    {
        self.visible_within(mgr, u32::MAX, los)
    }
}

/// Extracts a point from two optional coordinates, as handed over by a
/// script table; both must be present.
pub fn unwrap_point(x: Option<i32>, y: Option<i32>) -> (r: Result<(i32, i32), ScriptError>)
    ensures
        x is Some && y is Some ==> r == Ok::<(i32, i32), ScriptError>(
            (x.unwrap(), y.unwrap()),
        ),
        x is None || y is None ==> r == Err::<(i32, i32), ScriptError>(
            ScriptError::MissingCoordinate,
        ),
{
    match (x, y) {
        (Some(a), Some(b)) => Ok((a, b)),
        _ => Err(ScriptError::MissingCoordinate),
    }
}

} // verus!
