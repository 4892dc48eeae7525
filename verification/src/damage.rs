//! Damage specifications and the damage resolution engine.
//!
//! A [`Damage`] is one component: a `min..max` range and an optional kind.
//! A [`DamageList`] is an aggregate built from a base component and bonus
//! components, grouped so that every output component has a concrete kind.
//! Rolling a list draws each component uniformly, applies a tier multiplier
//! in hundredths (truncating), and consumes a single armor pool derived from
//! the base component's kind across the components in order.

use vstd::prelude::*;

use crate::armor::Armor;
use crate::num::lemma_filter_take_step;
use crate::rng::rand_in_range;

verus! {

/// A category of damage against which mitigation is tracked independently.
#[derive(Clone, Copy, Debug, PartialEq, Eq, Structural)]
pub enum DamageKind {
    Slashing,
    Piercing,
    Crushing,
    Acid,
    Cold,
    Electrical,
    Fire,
    Sonic,
    Raw,
}

/// A fixed position for each damage kind; bonus components are grouped into
/// buckets in this order.
pub open spec fn dk_rank(k: DamageKind) -> int {
    match k {
        DamageKind::Slashing => 0,
        DamageKind::Piercing => 1,
        DamageKind::Crushing => 2,
        DamageKind::Acid => 3,
        DamageKind::Cold => 4,
        DamageKind::Electrical => 5,
        DamageKind::Fire => 6,
        DamageKind::Sonic => 7,
        DamageKind::Raw => 8,
    }
}

/// The inverse of [`dk_rank`] on `0..9`.
pub open spec fn rank_to_kind(r: int) -> DamageKind {
    if r == 0 {
        DamageKind::Slashing
    } else if r == 1 {
        DamageKind::Piercing
    } else if r == 2 {
        DamageKind::Crushing
    } else if r == 3 {
        DamageKind::Acid
    } else if r == 4 {
        DamageKind::Cold
    } else if r == 5 {
        DamageKind::Electrical
    } else if r == 6 {
        DamageKind::Fire
    } else if r == 7 {
        DamageKind::Sonic
    } else {
        DamageKind::Raw
    }
}

/// The kind whose bucket is filled at the given grouping position.
pub fn kind_of_rank(r: usize) -> (k: DamageKind)
    requires
        r < 9,
    ensures
        k == rank_to_kind(r as int),
        dk_rank(k) == r as int,
{
    match r {
        0 => DamageKind::Slashing,
        1 => DamageKind::Piercing,
        2 => DamageKind::Crushing,
        3 => DamageKind::Acid,
        4 => DamageKind::Cold,
        5 => DamageKind::Electrical,
        6 => DamageKind::Fire,
        7 => DamageKind::Sonic,
        _ => DamageKind::Raw,
    }
}

/// One damage component: an inclusive range and an optional kind.  A
/// component with no kind always merges into a list's base component and
/// never forms an output bucket of its own.
#[derive(Clone, Copy, Debug, PartialEq)]
pub struct Damage {
    pub min: u32,
    pub max: u32,
    pub kind: Option<DamageKind>,
}

impl Damage {
    /// Folds another component's range into this one, keeping this kind.
    pub fn add(&mut self, other: Damage)
        requires
            old(self).min + other.min <= u32::MAX,
            old(self).max + other.max <= u32::MAX,
        ensures
            final(self).min == old(self).min + other.min,
            final(self).max == old(self).max + other.max,
            final(self).kind == old(self).kind,
    {
        self.min = self.min + other.min;
        self.max = self.max + other.max;
    }

    /// This component scaled by a whole factor.
    pub fn mult(&self, times: u32) -> (r: Damage)
        requires
            self.min * times <= u32::MAX,
            self.max * times <= u32::MAX,
        ensures
            r.min == self.min * times,
            r.max == self.max * times,
            r.kind == self.kind,
    {
        Damage { min: self.min * times, max: self.max * times, kind: self.kind }
    }

    /// A uniform draw from the component's range.
    pub fn roll(&self) -> (r: u32)
        requires
            self.min <= self.max,
        ensures
            self.min <= r <= self.max,
    {
        rand_in_range(self.min, self.max)
    }
}

impl Default for Damage {
    /// The neutral component: an empty range with no kind.
    fn default() -> (r: Damage)
        ensures
            r.min == 0,
            r.max == 0,
            r.kind is None,
    {
        Damage { min: 0, max: 0, kind: None }
    }
}

/// The sum of the components' minimum values.
pub open spec fn sum_min(s: Seq<Damage>) -> int
    decreases s.len(),
{
    if s.len() == 0 {
        0
    } else {
        sum_min(s.drop_last()) + s.last().min
    }
}

/// The sum of the components' maximum values.
pub open spec fn sum_max(s: Seq<Damage>) -> int
    decreases s.len(),
{
    if s.len() == 0 {
        0
    } else {
        sum_max(s.drop_last()) + s.last().max
    }
}

pub proof fn lemma_sum_nonneg(s: Seq<Damage>)
    ensures
        sum_min(s) >= 0,
        sum_max(s) >= 0,
    decreases s.len(),
{
    if s.len() > 0 {
        lemma_sum_nonneg(s.drop_last());
    }
}

pub proof fn lemma_sum_take_step(s: Seq<Damage>, i: int)
    requires
        0 <= i < s.len(),
    ensures
        sum_min(s.take(i + 1)) == sum_min(s.take(i)) + s[i].min,
        sum_max(s.take(i + 1)) == sum_max(s.take(i)) + s[i].max,
{
    assert(s.take(i + 1).drop_last() =~= s.take(i));
    assert(s.take(i + 1).last() == s[i]);
}

pub proof fn lemma_sum_take_le(s: Seq<Damage>, i: int)
    requires
        0 <= i <= s.len(),
    ensures
        sum_min(s.take(i)) <= sum_min(s),
        sum_max(s.take(i)) <= sum_max(s),
    decreases s.len(),
{
    if i == s.len() {
        assert(s.take(i) =~= s);
    } else {
        assert(s.drop_last().take(i) =~= s.take(i));
        lemma_sum_take_le(s.drop_last(), i);
    }
}

pub proof fn lemma_sum_filter_le(s: Seq<Damage>, pred: spec_fn(Damage) -> bool)
    ensures
        0 <= sum_min(s.filter(pred)) <= sum_min(s),
        0 <= sum_max(s.filter(pred)) <= sum_max(s),
    decreases s.len(),
{
    reveal(Seq::filter);
    lemma_sum_nonneg(s);
    lemma_sum_nonneg(s.filter(pred));
    if s.len() == 0 {
    } else {
        lemma_sum_filter_le(s.drop_last(), pred);
        if pred(s.last()) {
            lemma_sum_push(s.drop_last().filter(pred), s.last());
        }
    }
}

pub proof fn lemma_sum_filter_min_le_max(s: Seq<Damage>, pred: spec_fn(Damage) -> bool)
    requires
        forall|i: int| 0 <= i < s.len() ==> s[i].min <= s[i].max,
    ensures
        sum_min(s.filter(pred)) <= sum_max(s.filter(pred)),
    decreases s.len(),
{
    reveal(Seq::filter);
    if s.len() == 0 {
    } else {
        assert(forall|i: int| 0 <= i < s.drop_last().len() ==> s.drop_last()[i] == s[i]);
        lemma_sum_filter_min_le_max(s.drop_last(), pred);
        if pred(s.last()) {
            lemma_sum_push(s.drop_last().filter(pred), s.last());
            assert(s.last() == s[s.len() - 1]);
        }
    }
}

pub proof fn lemma_sum_remove(s: Seq<Damage>, i: int)
    requires
        0 <= i < s.len(),
    ensures
        sum_min(s) == sum_min(s.remove(i)) + s[i].min,
        sum_max(s) == sum_max(s.remove(i)) + s[i].max,
    decreases s.len(),
{
    if i == s.len() - 1 {
        assert(s.remove(i) =~= s.drop_last());
    } else {
        assert(s.remove(i).drop_last() =~= s.drop_last().remove(i));
        assert(s.remove(i).last() == s.last());
        lemma_sum_remove(s.drop_last(), i);
    }
}

/// The component totals of a damage list depend only on which bonus
/// components are present, never on the order they are given in.
pub proof fn lemma_sum_order_independent(s1: Seq<Damage>, s2: Seq<Damage>)
    requires
        s1.to_multiset() == s2.to_multiset(),
    ensures
        sum_min(s1) == sum_min(s2),
        sum_max(s1) == sum_max(s2),
    decreases s1.len(),
{
    broadcast use vstd::seq_lib::group_to_multiset_ensures;

    if s1.len() == 0 {
        assert(s2.to_multiset().len() == 0);
        assert(s2.len() == 0);
    } else {
        let x = s1.last();
        assert(s1.drop_last().push(x) =~= s1);
        assert(s1.to_multiset().count(x) > 0);
        assert(s2.to_multiset().count(x) > 0);
        assert(s2.contains(x));
        let j = choose|j: int| 0 <= j < s2.len() && s2[j] == x;
        assert(s1.drop_last().to_multiset() =~= s1.to_multiset().remove(x)) by {
            assert(s1.drop_last().push(x).to_multiset() =~= s1.drop_last().to_multiset().insert(x));
        }
        assert(s2.remove(j).to_multiset() =~= s2.to_multiset().remove(x));
        lemma_sum_order_independent(s1.drop_last(), s2.remove(j));
        lemma_sum_remove(s2, j);
    }
}

/// Whether a bonus component merges into the base component rather than a
/// bucket of its own: it has no kind, or it has the base component's kind.
pub open spec fn matches_base(bk: DamageKind, d: Damage) -> bool {
    d.kind is None || d.kind == Some(bk)
}

/// The first output component: the base component with every matching bonus
/// folded in.
pub open spec fn base_component(base: Damage, bonuses: Seq<Damage>) -> Damage {
    let s = bonuses.filter(|d: Damage| matches_base(base.kind.unwrap(), d));
    Damage {
        min: (base.min + sum_min(s)) as u32,
        max: (base.max + sum_max(s)) as u32,
        kind: base.kind,
    }
}

/// The merged bucket for one kind: the sums of the matching bonuses' ranges.
pub open spec fn kind_bucket(k: DamageKind, bonuses: Seq<Damage>) -> Damage {
    let s = bonuses.filter(|d: Damage| d.kind == Some(k));
    Damage { min: sum_min(s) as u32, max: sum_max(s) as u32, kind: Some(k) }
}

/// Whether the output holds a bucket for kind `k`: some bonus has that kind,
/// and it is not the base kind (those merge into the base component).
pub open spec fn has_bucket(bk: DamageKind, k: DamageKind, bonuses: Seq<Damage>) -> bool {
    k != bk && bonuses.filter(|d: Damage| d.kind == Some(k)).len() > 0
}

/// The buckets for the kinds of rank below `r`, in rank order.
pub open spec fn buckets_upto(bk: DamageKind, bonuses: Seq<Damage>, r: int) -> Seq<Damage>
    decreases r,
{
    if r <= 0 {
        Seq::empty()
    } else {
        let prev = buckets_upto(bk, bonuses, r - 1);
        let k = rank_to_kind(r - 1);
        if has_bucket(bk, k, bonuses) {
            prev.push(kind_bucket(k, bonuses))
        } else {
            prev
        }
    }
}

/// The full component sequence a list is created with: the merged base
/// component, then one bucket per remaining kind that has a bonus.
pub open spec fn created_components(base: Damage, bonuses: Seq<Damage>) -> Seq<Damage> {
    seq![base_component(base, bonuses)] + buckets_upto(base.kind.unwrap(), bonuses, 9)
}

pub proof fn lemma_sum_push(q: Seq<Damage>, d: Damage)
    ensures
        sum_min(q.push(d)) == sum_min(q) + d.min,
        sum_max(q.push(d)) == sum_max(q) + d.max,
{
    assert(q.push(d).drop_last() =~= q);
}

pub proof fn lemma_buckets_upto_wf(bk: DamageKind, bonuses: Seq<Damage>, r: int)
    requires
        0 <= r <= 9,
        forall|i: int| 0 <= i < bonuses.len() ==> bonuses[i].min <= bonuses[i].max,
        sum_min(bonuses) <= u32::MAX,
        sum_max(bonuses) <= u32::MAX,
    ensures
        forall|i: int|
            0 <= i < buckets_upto(bk, bonuses, r).len() ==> {
                let d = #[trigger] buckets_upto(bk, bonuses, r)[i];
                d.kind is Some && d.min <= d.max
            },
    decreases r,
{
    if r > 0 {
        lemma_buckets_upto_wf(bk, bonuses, r - 1);
        let k = rank_to_kind(r - 1);
        if has_bucket(bk, k, bonuses) {
            lemma_sum_filter_le(bonuses, |d: Damage| d.kind == Some(k));
            lemma_sum_filter_min_le_max(bonuses, |d: Damage| d.kind == Some(k));
        }
    }
}

/// A damage aggregate: a base component that always carries a kind, then at
/// most one merged bucket per further kind, in kind-rank order, plus the
/// total range over all components kept for display.
#[derive(Clone, Debug)]
pub struct DamageList {
    damage: Vec<Damage>,
    min: u32,
    max: u32,
}

impl DamageList {
    /// The components in order; index 0, when present, is the base component.
    pub closed spec fn components(&self) -> Seq<Damage> {
        self.damage@
    }

    /// The total of the components' minimum values.
    pub closed spec fn min_spec(&self) -> u32 {
        self.min
    }

    /// The total of the components' maximum values.
    pub closed spec fn max_spec(&self) -> u32 {
        self.max
    }

    /// Every component carries a kind and an ordered range.
    pub open spec fn wf(&self) -> bool {
        forall|i: int|
            0 <= i < self.components().len() ==> {
                let d = #[trigger] self.components()[i];
                d.kind is Some && d.min <= d.max
            }
    }

    /// The empty list: no components, meaning no damage can be dealt.
    pub fn new() -> (r: DamageList)
        ensures
            r.components().len() == 0,
            r.min_spec() == 0,
            r.max_spec() == 0,
            r.wf(),
    {
        DamageList { damage: Vec::new(), min: 0, max: 0 }
    }

    /// Builds the aggregate from a base component and bonus components.
    ///
    /// A base component without a kind is malformed content: the call is a
    /// no-op, leaving the list empty.  Otherwise each bonus with no kind or
    /// with the base kind merges into the base component; the rest merge
    /// into one bucket per kind, laid out in kind-rank order; the totals
    /// become the sums over all components.
    pub fn create(&mut self, base_damage: Damage, bonus_damage: &Vec<Damage>)
        requires
            old(self).components().len() == 0,
            base_damage.kind is Some ==> base_damage.min <= base_damage.max,
            base_damage.kind is Some ==> forall|i: int|
                0 <= i < bonus_damage@.len() ==> (#[trigger] bonus_damage@[i]).min
                    <= bonus_damage@[i].max,
            base_damage.kind is Some ==> base_damage.min + sum_min(bonus_damage@) <= u32::MAX,
            base_damage.kind is Some ==> base_damage.max + sum_max(bonus_damage@) <= u32::MAX,
        ensures
            base_damage.kind is None ==> *final(self) == *old(self),
            base_damage.kind is Some ==> final(self).components() == created_components(
                base_damage,
                bonus_damage@,
            ),
            base_damage.kind is Some ==> final(self).min_spec() == base_damage.min + sum_min(
                bonus_damage@,
            ),
            base_damage.kind is Some ==> final(self).max_spec() == base_damage.max + sum_max(
                bonus_damage@,
            ),
            final(self).wf(),
    {
        if base_damage.kind.is_none() {
            return ;
        }
        let bk = base_damage.kind.unwrap();
        let ghost s = bonus_damage@;
        let ghost mb = |d: Damage| matches_base(base_damage.kind.unwrap(), d);

        let n = bonus_damage.len();
        let mut total_min: u32 = base_damage.min;
        let mut total_max: u32 = base_damage.max;
        let mut comp0: Damage = base_damage;
        let mut i: usize = 0;
        while i < n
            invariant
                i <= n,
                n == s.len(),
                s == bonus_damage@,
                base_damage.kind == Some(bk),
                forall|j: int| 0 <= j < s.len() ==> (#[trigger] s[j]).min <= s[j].max,
                base_damage.min + sum_min(s) <= u32::MAX,
                base_damage.max + sum_max(s) <= u32::MAX,
                total_min == base_damage.min + sum_min(s.take(i as int)),
                total_max == base_damage.max + sum_max(s.take(i as int)),
                comp0.kind == base_damage.kind,
                comp0.min == base_damage.min + sum_min(s.take(i as int).filter(mb)),
                comp0.max == base_damage.max + sum_max(s.take(i as int).filter(mb)),
                mb == |d: Damage| matches_base(base_damage.kind.unwrap(), d),
            decreases n - i,
        {
            let d = bonus_damage[i];
            let merges: bool = match d.kind {
                None => true,
                Some(k) => k == bk,
            };
            proof {
                assert(merges == mb(d));
                lemma_sum_take_step(s, i as int);
                lemma_sum_take_le(s, i as int + 1);
                lemma_sum_nonneg(s.take(i as int + 1));
                lemma_filter_take_step(s, mb, i as int);
                if mb(d) {
                    lemma_sum_push(s.take(i as int).filter(mb), d);
                }
                lemma_sum_filter_le(s.take(i as int + 1), mb);
                lemma_sum_take_le(s, i as int);
            }
            total_min = total_min + d.min;
            total_max = total_max + d.max;
            if merges {
                comp0.min = comp0.min + d.min;
                comp0.max = comp0.max + d.max;
            }
            i = i + 1;
        }
        proof {
            assert(s.take(n as int) =~= s);
        }
        self.min = total_min;
        self.max = total_max;
        self.damage.push(comp0);
        proof {
            lemma_sum_filter_le(s, mb);
            lemma_sum_filter_min_le_max(s, mb);
            assert(comp0 == base_component(base_damage, s));
            assert(self.damage@ =~= seq![base_component(base_damage, s)] + buckets_upto(bk, s, 0));
        }

        let mut rank: usize = 0;
        while rank < 9
            invariant
                rank <= 9,
                n == s.len(),
                s == bonus_damage@,
                base_damage.kind == Some(bk),
                forall|j: int| 0 <= j < s.len() ==> (#[trigger] s[j]).min <= s[j].max,
                base_damage.min + sum_min(s) <= u32::MAX,
                base_damage.max + sum_max(s) <= u32::MAX,
                self.min == base_damage.min + sum_min(s),
                self.max == base_damage.max + sum_max(s),
                self.damage@ == seq![base_component(base_damage, s)] + buckets_upto(
                    bk,
                    s,
                    rank as int,
                ),
            decreases 9 - rank,
        {
            let k = kind_of_rank(rank);
            let ghost pk = |d: Damage| d.kind == Some(k);
            if !(k == bk) {
                let mut bmin: u32 = 0;
                let mut bmax: u32 = 0;
                let mut any: bool = false;
                let mut j: usize = 0;
                while j < n
                    invariant
                        j <= n,
                        n == s.len(),
                        s == bonus_damage@,
                        forall|t: int| 0 <= t < s.len() ==> (#[trigger] s[t]).min <= s[t].max,
                        base_damage.min + sum_min(s) <= u32::MAX,
                        base_damage.max + sum_max(s) <= u32::MAX,
                        pk == |d: Damage| d.kind == Some(k),
                        bmin == sum_min(s.take(j as int).filter(pk)),
                        bmax == sum_max(s.take(j as int).filter(pk)),
                        any == (s.take(j as int).filter(pk).len() > 0),
                    decreases n - j,
                {
                    let d = bonus_damage[j];
                    let matched: bool = match d.kind {
                        None => false,
                        Some(dk) => dk == k,
                    };
                    proof {
                        assert(matched == pk(d));
                        lemma_filter_take_step(s, pk, j as int);
                        if pk(d) {
                            lemma_sum_push(s.take(j as int).filter(pk), d);
                        }
                        lemma_sum_filter_le(s.take(j as int + 1), pk);
                        lemma_sum_take_le(s, j as int + 1);
                        lemma_sum_nonneg(s);
                    }
                    if matched {
                        bmin = bmin + d.min;
                        bmax = bmax + d.max;
                        any = true;
                    }
                    j = j + 1;
                }
                proof {
                    assert(s.take(n as int) =~= s);
                    lemma_sum_filter_le(s, pk);
                }
                if any {
                    let bucket = Damage { min: bmin, max: bmax, kind: Some(k) };
                    self.damage.push(bucket);
                    proof {
                        assert(bucket == kind_bucket(k, s));
                        assert(has_bucket(bk, k, s));
                        assert((seq![base_component(base_damage, s)] + buckets_upto(
                            bk,
                            s,
                            rank as int,
                        )).push(bucket) =~= seq![base_component(base_damage, s)] + buckets_upto(
                            bk,
                            s,
                            rank as int,
                        ).push(bucket));
                        assert(buckets_upto(bk, s, rank as int + 1) == buckets_upto(
                            bk,
                            s,
                            rank as int,
                        ).push(kind_bucket(k, s)));
                    }
                } else {
                    proof {
                        assert(!has_bucket(bk, k, s));
                        assert(buckets_upto(bk, s, rank as int + 1) == buckets_upto(
                            bk,
                            s,
                            rank as int,
                        ));
                    }
                }
            } else {
                proof {
                    assert(!has_bucket(bk, k, s));
                    assert(buckets_upto(bk, s, rank as int + 1) == buckets_upto(
                        bk,
                        s,
                        rank as int,
                    ));
                }
            }
            rank = rank + 1;
        }
        proof {
            lemma_sum_filter_le(s, mb);
            lemma_sum_filter_min_le_max(s, mb);
            lemma_buckets_upto_wf(bk, s, 9);
            assert forall|t: int| 0 <= t < self.components().len() implies {
                let d = #[trigger] self.components()[t];
                d.kind is Some && d.min <= d.max
            } by {
                if t > 0 {
                    assert(self.components()[t] == buckets_upto(bk, s, 9)[t - 1]);
                }
            }
        }
    }

    /// The total of the components' minimum values.
    pub fn min(&self) -> (r: u32)
        ensures
            r == self.min_spec(),
    {
        self.min
    }

    /// The total of the components' maximum values.
    pub fn max(&self) -> (r: u32)
        ensures
            r == self.max_spec(),
    {
        self.max
    }

    /// Rolls every component of this list, scales each draw by `multiplier`
    /// (in hundredths, truncating), and mitigates the results against the
    /// armor amount for the base component's kind, consumed as a single pool
    /// across the components in order.
    ///
    /// The output never holds a zero amount: a fully absorbed component is
    /// dropped.  An empty list yields an empty result, meaning no damage was
    /// possible at all, as opposed to damage that rolled low.
    pub fn roll(&self, armor: &Armor, multiplier: u32) -> (out: Vec<(DamageKind, u32)>)
        requires
            self.wf(),
        ensures
            exists|rolls: Seq<u32>|
                valid_rolls(self.components(), rolls) && out@ == spec_mitigate(
                    spec_amounts(self.components(), rolls, multiplier),
                    self.base_armor_spec(armor),
                ),
            forall|i: int| 0 <= i < out@.len() ==> (#[trigger] out@[i]).1 > 0,
            self.components().len() == 0 ==> out@.len() == 0,
    {
        let n = self.damage.len();
        if n == 0 {
            let out: Vec<(DamageKind, u32)> = Vec::new();
            proof {
                let rolls = Seq::<u32>::empty();
                assert(valid_rolls(self.components(), rolls));
                assert(spec_amounts(self.components(), rolls, multiplier) =~= Seq::<(
                    DamageKind,
                    u32,
                )>::empty());
                assert(out@ == spec_mitigate(
                    spec_amounts(self.components(), rolls, multiplier),
                    self.base_armor_spec(armor),
                ));
            }
            return out;
        }
        let armor_amount = armor.amount(self.damage[0].kind.unwrap());

        let mut amounts: Vec<(DamageKind, u32)> = Vec::new();
        let ghost mut rolls: Seq<u32> = Seq::empty();
        let mut i: usize = 0;
        while i < n
            invariant
                i <= n,
                n == self.components().len(),
                self.wf(),
                rolls.len() == i,
                forall|j: int|
                    0 <= j < i ==> self.components()[j].min <= #[trigger] rolls[j]
                        <= self.components()[j].max,
                amounts@ =~= spec_amounts(self.components().take(i as int), rolls, multiplier),
            decreases n - i,
        {
            let d = self.damage[i];
            let r = rand_in_range(d.min, d.max);
            let amt = scale_amount(r, multiplier);
            amounts.push((d.kind.unwrap(), amt));
            proof {
                rolls = rolls.push(r);
                assert(amt == amount_of(r, multiplier));
                assert(amounts@ =~= spec_amounts(
                    self.components().take(i as int + 1),
                    rolls,
                    multiplier,
                ));
            }
            i = i + 1;
        }
        proof {
            assert(self.components().take(n as int) =~= self.components());
            assert(valid_rolls(self.components(), rolls));
        }
        let out = mitigate(&amounts, armor_amount);
        proof {
            lemma_mitigate_positive(amounts@, armor_amount);
        }
        out
    }
}

/// Whether `rolls` is an admissible outcome of drawing each component of
/// `comps` once: one draw per component, each inside its range.
pub open spec fn valid_rolls(comps: Seq<Damage>, rolls: Seq<u32>) -> bool {
    &&& rolls.len() == comps.len()
    &&& forall|i: int|
        0 <= i < comps.len() ==> comps[i].min <= #[trigger] rolls[i] <= comps[i].max
}

/// One draw scaled by the tier multiplier in hundredths, truncating toward
/// zero and saturating at the type's limit.
pub open spec fn amount_of(r: u32, multiplier: u32) -> u32 {
    if r * multiplier / 100 > u32::MAX {
        u32::MAX
    } else {
        (r * multiplier / 100) as u32
    }
}

/// Scales one draw by a multiplier in hundredths, truncating toward zero
/// and saturating at the type's limit.
pub fn scale_amount(r: u32, multiplier: u32) -> (a: u32)
    ensures
        a == amount_of(r, multiplier),
{
    proof {
        assert((r as int) * (multiplier as int) <= (u32::MAX as int) * (u32::MAX as int))
            by (nonlinear_arith)
            requires
                r <= u32::MAX,
                multiplier <= u32::MAX,
        ;
    }
    let scaled: u64 = r as u64 * multiplier as u64 / 100;
    if scaled > u32::MAX as u64 {
        u32::MAX
    } else {
        scaled as u32
    }
}

/// The scaled amounts of a full set of draws, each paired with its
/// component's kind.
pub open spec fn spec_amounts(comps: Seq<Damage>, rolls: Seq<u32>, multiplier: u32) -> Seq<
    (DamageKind, u32),
> {
    Seq::new(comps.len(), |i: int| (comps[i].kind.unwrap(), amount_of(rolls[i], multiplier)))
}

/// Consumes a single armor pool across the scaled amounts in order: an
/// amount at most the remaining pool is absorbed entirely; otherwise the
/// remainder is emitted and the pool is spent.  Zero amounts never appear in
/// the output.
pub open spec fn spec_mitigate(items: Seq<(DamageKind, u32)>, armor: u32) -> Seq<
    (DamageKind, u32),
>
    decreases items.len(),
{
    if items.len() == 0 {
        Seq::empty()
    } else {
        let k = items[0].0;
        let a = items[0].1;
        if armor >= a {
            spec_mitigate(items.skip(1), (armor - a) as u32)
        } else {
            seq![(k, (a - armor) as u32)] + spec_mitigate(items.skip(1), 0u32)
        }
    }
}

/// Every amount the mitigation emits is strictly positive.
pub proof fn lemma_mitigate_positive(items: Seq<(DamageKind, u32)>, armor: u32)
    ensures
        forall|i: int|
            0 <= i < spec_mitigate(items, armor).len() ==> (#[trigger] spec_mitigate(
                items,
                armor,
            )[i]).1 > 0,
    decreases items.len(),
{
    if items.len() > 0 {
        let a = items[0].1;
        if armor >= a {
            lemma_mitigate_positive(items.skip(1), (armor - a) as u32);
            assert forall|i: int| 0 <= i < spec_mitigate(items, armor).len() implies (
            #[trigger] spec_mitigate(items, armor)[i]).1 > 0 by {
                assert(spec_mitigate(items, armor)[i] == spec_mitigate(
                    items.skip(1),
                    (armor - a) as u32,
                )[i]);
            }
        } else {
            lemma_mitigate_positive(items.skip(1), 0u32);
            assert forall|i: int| 0 <= i < spec_mitigate(items, armor).len() implies (
            #[trigger] spec_mitigate(items, armor)[i]).1 > 0 by {
                if i > 0 {
                    assert(spec_mitigate(items, armor)[i] == spec_mitigate(
                        items.skip(1),
                        0u32,
                    )[i - 1]);
                }
            }
        }
    }
}

/// Applies the armor pool to already-scaled component amounts.  This is the
/// deterministic part of a damage roll, split out so that it is checkable on
/// chosen amounts.
pub fn mitigate(items: &Vec<(DamageKind, u32)>, armor: u32) -> (out: Vec<(DamageKind, u32)>)
    ensures
        out@ == spec_mitigate(items@, armor),
{
    let n = items.len();
    let mut out: Vec<(DamageKind, u32)> = Vec::new();
    let mut armor_left: u32 = armor;
    let mut i: usize = 0;
    proof {
        assert(items@.skip(0) =~= items@);
        assert(out@ + spec_mitigate(items@, armor) =~= spec_mitigate(items@, armor));
    }
    while i < n
        invariant
            i <= n,
            n == items@.len(),
            spec_mitigate(items@, armor) == out@ + spec_mitigate(
                items@.skip(i as int),
                armor_left,
            ),
        decreases n - i,
    {
        let (kind, amt) = items[i];
        proof {
            assert(items@.skip(i as int)[0] == items@[i as int]);
            assert(items@.skip(i as int).skip(1) =~= items@.skip(i as int + 1));
        }
        if armor_left >= amt {
            armor_left = armor_left - amt;
        } else {
            let dealt = amt - armor_left;
            armor_left = 0;
            out.push((kind, dealt));
            proof {
                assert(out@.drop_last() + (seq![(kind, dealt)] + spec_mitigate(
                    items@.skip(i as int + 1),
                    0u32,
                )) =~= out@ + spec_mitigate(items@.skip(i as int + 1), 0u32));
            }
        }
        i = i + 1;
    }
    proof {
        assert(items@.skip(n as int) =~= Seq::<(DamageKind, u32)>::empty());
        assert(out@ + spec_mitigate(items@.skip(n as int), armor_left) =~= out@);
    }
    out
}

impl DamageList {
    /// The armor pool a roll of this list draws against: the armor amount
    /// for the base component's kind, or nothing when the list is empty.
    pub open spec fn base_armor_spec(&self, armor: &Armor) -> u32 {
        if self.components().len() == 0 {
            0u32
        } else {
            armor.amount_spec(self.components()[0].kind.unwrap())
        }
    }
}

/// The total of the emitted amounts, saturating at the type's limit.
pub open spec fn sat_sum(s: Seq<(DamageKind, u32)>) -> u32
    decreases s.len(),
{
    if s.len() == 0 {
        0u32
    } else {
        crate::num::sat_add_spec(sat_sum(s.drop_last()) as int, s.last().1 as int)
    }
}

/// Sums the emitted amounts of a roll, saturating.
pub fn total_damage(items: &Vec<(DamageKind, u32)>) -> (r: u32)
    ensures
        r == sat_sum(items@),
{
    let n = items.len();
    let mut total: u32 = 0;
    let mut i: usize = 0;
    while i < n
        invariant
            i <= n,
            n == items@.len(),
            total == sat_sum(items@.take(i as int)),
        decreases n - i,
    {
        proof {
            assert(items@.take(i as int + 1).drop_last() =~= items@.take(i as int));
            assert(items@.take(i as int + 1).last() == items@[i as int]);
        }
        total = crate::num::sat_add(total, items[i].1);
        i = i + 1;
    }
    proof {
        assert(items@.take(n as int) =~= items@);
    }
    total
}

/// For components with a fixed range (`min == max`), a roll's outcome is
/// fully determined: any two admissible sets of draws scale and mitigate to
/// the same result, because truncation leaves no rounding freedom.
pub proof fn lemma_roll_deterministic_when_fixed(
    comps: Seq<Damage>,
    rolls1: Seq<u32>,
    rolls2: Seq<u32>,
    multiplier: u32,
    armor: u32,
)
    requires
        forall|i: int| 0 <= i < comps.len() ==> (#[trigger] comps[i]).min == comps[i].max,
        valid_rolls(comps, rolls1),
        valid_rolls(comps, rolls2),
    ensures
        spec_mitigate(spec_amounts(comps, rolls1, multiplier), armor) == spec_mitigate(
            spec_amounts(comps, rolls2, multiplier),
            armor,
        ),
{
    assert(rolls1 =~= rolls2);
}

} // verus!
