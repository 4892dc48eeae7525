//! Per-damage-kind mitigation values over a baseline.

use vstd::prelude::*;

use crate::damage::DamageKind;
use crate::num::{sat_add, sat_add_spec};

verus! {

/// Mitigation values, one per damage kind, over a baseline.  The baseline is
/// the value every kind starts from; individual kinds may then be raised or
/// lowered.  The same shape serves for armor (flat mitigation) and for
/// resistance values.
#[derive(Clone, Copy, Debug, PartialEq, Eq)]
pub struct Armor {
    base: u32,
    slashing: u32,
    piercing: u32,
    crushing: u32,
    acid: u32,
    cold: u32,
    electrical: u32,
    fire: u32,
    sonic: u32,
    raw: u32,
}

impl Armor {
    /// The mitigation applied against the given damage kind.
    pub closed spec fn amount_spec(&self, kind: DamageKind) -> u32 {
        match kind {
            DamageKind::Slashing => self.slashing,
            DamageKind::Piercing => self.piercing,
            DamageKind::Crushing => self.crushing,
            DamageKind::Acid => self.acid,
            DamageKind::Cold => self.cold,
            DamageKind::Electrical => self.electrical,
            DamageKind::Fire => self.fire,
            DamageKind::Sonic => self.sonic,
            DamageKind::Raw => self.raw,
        }
    }

    pub closed spec fn base_spec(&self) -> u32 {
        self.base
    }

    /// A new set of mitigation values, every kind at the baseline.
    pub fn new(base: u32) -> (r: Armor)
        ensures
            r.base_spec() == base,
            forall|k: DamageKind| r.amount_spec(k) == base,
    {
        Armor {
            base,
            slashing: base,
            piercing: base,
            crushing: base,
            acid: base,
            cold: base,
            electrical: base,
            fire: base,
            sonic: base,
            raw: base,
        }
    }

    /// Sets the mitigation against one kind, leaving the others and the
    /// baseline as they were.
    pub fn set_kind(&mut self, kind: DamageKind, value: u32)
        ensures
            final(self).amount_spec(kind) == value,
            forall|k: DamageKind| k != kind ==> final(self).amount_spec(k) == old(self).amount_spec(k),
            final(self).base_spec() == old(self).base_spec(),
    {
        match kind {
            DamageKind::Slashing => self.slashing = value,
            DamageKind::Piercing => self.piercing = value,
            DamageKind::Crushing => self.crushing = value,
            DamageKind::Acid => self.acid = value,
            DamageKind::Cold => self.cold = value,
            DamageKind::Electrical => self.electrical = value,
            DamageKind::Fire => self.fire = value,
            DamageKind::Sonic => self.sonic = value,
            DamageKind::Raw => self.raw = value,
        }
    }

    /// The mitigation applied against the given damage kind.
    pub fn amount(&self, kind: DamageKind) -> (r: u32)
        ensures
            r == self.amount_spec(kind),
    {
        match kind {
            DamageKind::Slashing => self.slashing,
            DamageKind::Piercing => self.piercing,
            DamageKind::Crushing => self.crushing,
            DamageKind::Acid => self.acid,
            DamageKind::Cold => self.cold,
            DamageKind::Electrical => self.electrical,
            DamageKind::Fire => self.fire,
            DamageKind::Sonic => self.sonic,
            DamageKind::Raw => self.raw,
        }
    }

    /// The baseline value the set was created with.
    pub fn base(&self) -> (r: u32)
        ensures
            r == self.base_spec(),
    {
        self.base
    }

    /// This set with the baseline and every kind raised by `amount`,
    /// saturating.
    pub closed spec fn raised(self, amount: u32) -> Armor {
        Armor {
            base: sat_add_spec(self.base as int, amount as int),
            slashing: sat_add_spec(self.slashing as int, amount as int),
            piercing: sat_add_spec(self.piercing as int, amount as int),
            crushing: sat_add_spec(self.crushing as int, amount as int),
            acid: sat_add_spec(self.acid as int, amount as int),
            cold: sat_add_spec(self.cold as int, amount as int),
            electrical: sat_add_spec(self.electrical as int, amount as int),
            fire: sat_add_spec(self.fire as int, amount as int),
            sonic: sat_add_spec(self.sonic as int, amount as int),
            raw: sat_add_spec(self.raw as int, amount as int),
        }
    }

    /// What raising does to each readable value.
    pub proof fn lemma_raised(self, amount: u32)
        ensures
            self.raised(amount).base_spec() == sat_add_spec(
                self.base_spec() as int,
                amount as int,
            ),
            forall|k: DamageKind|
                self.raised(amount).amount_spec(k) == sat_add_spec(
                    self.amount_spec(k) as int,
                    amount as int,
                ),
    {
    }

    /// Raises the baseline and every kind by `amount`, saturating.
    pub fn raise(&mut self, amount: u32)
        ensures
            *final(self) == old(self).raised(amount),
    {
        self.base = sat_add(self.base, amount);
        self.slashing = sat_add(self.slashing, amount);
        self.piercing = sat_add(self.piercing, amount);
        self.crushing = sat_add(self.crushing, amount);
        self.acid = sat_add(self.acid, amount);
        self.cold = sat_add(self.cold, amount);
        self.electrical = sat_add(self.electrical, amount);
        self.fire = sat_add(self.fire, amount);
        self.sonic = sat_add(self.sonic, amount);
        self.raw = sat_add(self.raw, amount);
    }
}

} // verus!
