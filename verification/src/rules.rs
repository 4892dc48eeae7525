//! The read-only ruleset: per-turn tunables, hit-tier thresholds and the
//! tier damage multipliers, plus the rule functions that read them.

use vstd::prelude::*;

use crate::damage::Damage;
use crate::rng::rand_in_range;

verus! {

/// The qualitative outcome of an attack roll, ordered from worst to best.
/// Each tier other than a miss maps to a damage multiplier from the rules.
#[derive(Clone, Copy, Debug, PartialEq, Eq, Structural)]
pub enum HitKind {
    Miss,
    Graze,
    Hit,
    Crit,
}

/// Static tunables read by every component.  Multipliers are in hundredths,
/// so `100` means unchanged damage.
#[derive(Clone, Copy, Debug, PartialEq, Eq, Structural)]
pub struct Rules {
    /// Action points granted at the start of each turn.
    pub base_ap: u32,
    /// Action points one square of movement costs.
    pub movement_ap: u32,
    /// Action points one attack costs.
    pub attack_ap: u32,
    /// Initiative every entity starts from before bonuses.
    pub base_initiative: u32,
    /// An attack margin above this grazes.
    pub graze_threshold: u32,
    /// An attack margin above this hits.
    pub hit_threshold: u32,
    /// An attack margin above this crits.
    pub crit_threshold: u32,
    /// Damage multiplier of a graze, in hundredths.
    pub graze_multiplier: u32,
    /// Damage multiplier of a hit, in hundredths.
    pub hit_multiplier: u32,
    /// Damage multiplier of a crit, in hundredths.
    pub crit_multiplier: u32,
    /// The attribute value that gives a zero attribute bonus.
    pub base_attribute: u32,
}

/// The margin an attack roll banks: the die roll plus the attacker's
/// accuracy, less the defender's defense.
pub open spec fn attack_margin(roll: u32, accuracy: u32, defense: u32) -> int {
    roll + accuracy - defense
}

/// The tier an attack margin (roll plus accuracy minus defense) falls into.
pub open spec fn spec_hit_tier(rules: Rules, margin: int) -> HitKind {
    if margin > rules.crit_threshold {
        HitKind::Crit
    } else if margin > rules.hit_threshold {
        HitKind::Hit
    } else if margin > rules.graze_threshold {
        HitKind::Graze
    } else {
        HitKind::Miss
    }
}

impl Rules {
    /// The damage multiplier of a tier, in hundredths; a miss multiplies
    /// nothing and is zero.
    pub open spec fn tier_multiplier(self, kind: HitKind) -> u32 {
        match kind {
            HitKind::Miss => 0,
            HitKind::Graze => self.graze_multiplier,
            HitKind::Hit => self.hit_multiplier,
            HitKind::Crit => self.crit_multiplier,
        }
    }

    /// The tier a given die roll yields for an attacker accuracy against a
    /// defender defense.
    pub fn hit_tier(&self, accuracy: u32, defense: u32, roll: u32) -> (kind: HitKind)
        ensures
            kind == spec_hit_tier(*self, roll + accuracy - defense),
    {
        let margin: i64 = roll as i64 + accuracy as i64 - defense as i64;
        if margin > self.crit_threshold as i64 {
            HitKind::Crit
        } else if margin > self.hit_threshold as i64 {
            HitKind::Hit
        } else if margin > self.graze_threshold as i64 {
            HitKind::Graze
        } else {
            HitKind::Miss
        }
    }

    /// Rolls a die from 1 to 100 and banks it against accuracy and defense.
    pub fn attack_roll(&self, accuracy: u32, defense: u32) -> (kind: HitKind)
        ensures
            exists|roll: u32|
                1 <= roll <= 100 && kind == spec_hit_tier(
                    *self,
                    #[trigger] attack_margin(roll, accuracy, defense),
                ),
    {
        let roll = rand_in_range(1, 100);
        let kind = self.hit_tier(accuracy, defense, roll);
        proof {
            assert(1 <= roll <= 100 && kind == spec_hit_tier(
                *self,
                attack_margin(roll, accuracy, defense),
            ));
        }
        kind
    }

    /// Picks the authoritative base damage out of the candidate list: the
    /// candidate with the widest total range (`min + max`), earliest first
    /// on ties; the neutral component when there is no candidate.
    pub fn compute_damage_from(&self, candidates: &Vec<Damage>) -> (r: Damage)
        ensures
            r == pick_damage(candidates@),
    {
        let n = candidates.len();
        if n == 0 {
            return Damage { min: 0, max: 0, kind: None };
        }
        let mut best: Damage = candidates[0];
        let mut i: usize = 1;
        while i < n
            invariant
                1 <= i <= n,
                n == candidates@.len(),
                best == pick_upto(candidates@, i as int),
            decreases n - i,
        {
            let c = candidates[i];
            if c.min as u64 + c.max as u64 > best.min as u64 + best.max as u64 {
                best = c;
            }
            i = i + 1;
        }
        best
    }
}

/// The best candidate among the first `i`, earliest first on ties.
pub open spec fn pick_upto(s: Seq<Damage>, i: int) -> Damage
    decreases i,
{
    if i <= 1 {
        s[0]
    } else {
        let prev = pick_upto(s, i - 1);
        if s[i - 1].min + s[i - 1].max > prev.min + prev.max {
            s[i - 1]
        } else {
            prev
        }
    }
}

/// The authoritative base damage picked from a candidate list.
pub open spec fn pick_damage(s: Seq<Damage>) -> Damage {
    if s.len() == 0 {
        Damage { min: 0, max: 0, kind: None }
    } else {
        pick_upto(s, s.len() as int)
    }
}

pub proof fn lemma_pick_upto_in(s: Seq<Damage>, i: int)
    requires
        1 <= i <= s.len(),
    ensures
        exists|j: int| 0 <= j < i && pick_upto(s, i) == s[j],
    decreases i,
{
    if i == 1 {
        assert(pick_upto(s, i) == s[0]);
    } else {
        lemma_pick_upto_in(s, i - 1);
    }
}

/// The picked base damage is one of the candidates (or the neutral
/// component when there is none), so an ordered candidate list yields an
/// ordered pick.
pub proof fn lemma_pick_damage_wf(s: Seq<Damage>)
    requires
        forall|i: int| 0 <= i < s.len() ==> (#[trigger] s[i]).min <= s[i].max,
    ensures
        pick_damage(s).min <= pick_damage(s).max,
        s.len() > 0 ==> s.contains(pick_damage(s)),
{
    if s.len() > 0 {
        lemma_pick_upto_in(s, s.len() as int);
    }
}

} // verus!
