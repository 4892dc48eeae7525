//! Attribute and derived-stat snapshots, and the bonus folding they are
//! built from.
//!
//! A [`StatList`] is recomputed from scratch whenever a contributing input
//! changes; bonuses fold in with saturating arithmetic so that no content
//! data can overflow the snapshot.

use vstd::prelude::*;

use crate::armor::Armor;
use crate::damage::{created_components, Damage, DamageList};
use crate::num::{sat_add, sat_add_spec, sat_mul, sat_mul_spec};

verus! {

/// One of the six base attributes of a combatant.
#[derive(Clone, Copy, Debug, PartialEq, Eq, Structural)]
pub enum Attribute {
    Strength,
    Dexterity,
    Endurance,
    Perception,
    Intellect,
    Wisdom,
}

/// The six base attribute values of a combatant.
#[derive(Clone, Copy, Debug, PartialEq, Eq, Structural)]
pub struct AttributeList {
    pub strength: u32,
    pub dexterity: u32,
    pub endurance: u32,
    pub perception: u32,
    pub intellect: u32,
    pub wisdom: u32,
}

impl AttributeList {
    pub open spec fn value_spec(&self, attr: Attribute) -> u32 {
        match attr {
            Attribute::Strength => self.strength,
            Attribute::Dexterity => self.dexterity,
            Attribute::Endurance => self.endurance,
            Attribute::Perception => self.perception,
            Attribute::Intellect => self.intellect,
            Attribute::Wisdom => self.wisdom,
        }
    }

    /// The raw value of one attribute.
    pub fn value(&self, attr: Attribute) -> (r: u32)
        ensures
            r == self.value_spec(attr),
    {
        match attr {
            Attribute::Strength => self.strength,
            Attribute::Dexterity => self.dexterity,
            Attribute::Endurance => self.endurance,
            Attribute::Perception => self.perception,
            Attribute::Intellect => self.intellect,
            Attribute::Wisdom => self.wisdom,
        }
    }

    /// The bonus an attribute grants over the rules' base attribute value;
    /// negative below it.
    pub fn bonus(&self, attr: Attribute, base: u32) -> (r: i64)
        ensures
            r == self.value_spec(attr) - base,
    {
        self.value(attr) as i64 - base as i64
    }
}

impl Default for AttributeList {
    /// All attributes at zero.
    fn default() -> (r: AttributeList)
        ensures
            r == (AttributeList {
                strength: 0u32,
                dexterity: 0u32,
                endurance: 0u32,
                perception: 0u32,
                intellect: 0u32,
                wisdom: 0u32,
            }),
    {
        AttributeList {
            strength: 0,
            dexterity: 0,
            endurance: 0,
            perception: 0,
            intellect: 0,
            wisdom: 0,
        }
    }
}

/// One source's contribution to the derived stats: a race's base values, a
/// class's per-level growth, or an equipped item's bonuses.  The optional
/// base damage is not folded into the snapshot; it is a candidate for the
/// damage profile, collected separately.
#[derive(Clone, Copy, Debug, PartialEq)]
pub struct StatBonuses {
    pub strength: u32,
    pub dexterity: u32,
    pub endurance: u32,
    pub perception: u32,
    pub intellect: u32,
    pub wisdom: u32,
    pub max_hp: u32,
    pub initiative: u32,
    pub accuracy: u32,
    pub defense: u32,
    pub fortitude: u32,
    pub reflex: u32,
    pub will: u32,
    pub reach: u32,
    pub movement_rate: u32,
    pub armor: u32,
    pub base_damage: Option<Damage>,
}

impl Default for StatBonuses {
    /// A contribution of nothing.
    fn default() -> (r: StatBonuses)
        ensures
            r == spec_empty_bonuses(),
    {
        StatBonuses {
            strength: 0,
            dexterity: 0,
            endurance: 0,
            perception: 0,
            intellect: 0,
            wisdom: 0,
            max_hp: 0,
            initiative: 0,
            accuracy: 0,
            defense: 0,
            fortitude: 0,
            reflex: 0,
            will: 0,
            reach: 0,
            movement_rate: 0,
            armor: 0,
            base_damage: None,
        }
    }
}

/// The contribution of nothing.
pub open spec fn spec_empty_bonuses() -> StatBonuses {
    StatBonuses {
        strength: 0u32,
        dexterity: 0u32,
        endurance: 0u32,
        perception: 0u32,
        intellect: 0u32,
        wisdom: 0u32,
        max_hp: 0u32,
        initiative: 0u32,
        accuracy: 0u32,
        defense: 0u32,
        fortitude: 0u32,
        reflex: 0u32,
        will: 0u32,
        reach: 0u32,
        movement_rate: 0u32,
        armor: 0u32,
        base_damage: None,
    }
}

/// A contribution scaled by a whole factor, saturating; the damage
/// candidate is carried unscaled.
pub open spec fn sb_scale(b: StatBonuses, times: u32) -> StatBonuses {
    StatBonuses {
        strength: sat_mul_spec(b.strength as int, times as int),
        dexterity: sat_mul_spec(b.dexterity as int, times as int),
        endurance: sat_mul_spec(b.endurance as int, times as int),
        perception: sat_mul_spec(b.perception as int, times as int),
        intellect: sat_mul_spec(b.intellect as int, times as int),
        wisdom: sat_mul_spec(b.wisdom as int, times as int),
        max_hp: sat_mul_spec(b.max_hp as int, times as int),
        initiative: sat_mul_spec(b.initiative as int, times as int),
        accuracy: sat_mul_spec(b.accuracy as int, times as int),
        defense: sat_mul_spec(b.defense as int, times as int),
        fortitude: sat_mul_spec(b.fortitude as int, times as int),
        reflex: sat_mul_spec(b.reflex as int, times as int),
        will: sat_mul_spec(b.will as int, times as int),
        reach: sat_mul_spec(b.reach as int, times as int),
        movement_rate: sat_mul_spec(b.movement_rate as int, times as int),
        armor: sat_mul_spec(b.armor as int, times as int),
        base_damage: b.base_damage,
    }
}

/// The full derived-stat snapshot of one entity, recomputed whole whenever
/// equipment, levels or effects change.
#[derive(Clone, Debug)]
pub struct StatList {
    pub attributes: AttributeList,
    pub armor: Armor,
    pub resistance: Armor,
    pub max_hp: u32,
    pub initiative: u32,
    pub accuracy: u32,
    pub defense: u32,
    pub fortitude: u32,
    pub reflex: u32,
    pub will: u32,
    pub reach: u32,
    pub movement_rate: u32,
    pub attack_disabled: bool,
    pub hidden: bool,
    pub melee: bool,
    pub damage: DamageList,
}

/// One bonus contribution folded into a snapshot: numeric fields add with
/// saturation, the armor baseline and every kind rise together, and the
/// damage profile and flags are untouched.
pub open spec fn apply_bonuses(s: StatList, b: StatBonuses) -> StatList {
    StatList {
        attributes: AttributeList {
            strength: sat_add_spec(s.attributes.strength as int, b.strength as int),
            dexterity: sat_add_spec(s.attributes.dexterity as int, b.dexterity as int),
            endurance: sat_add_spec(s.attributes.endurance as int, b.endurance as int),
            perception: sat_add_spec(s.attributes.perception as int, b.perception as int),
            intellect: sat_add_spec(s.attributes.intellect as int, b.intellect as int),
            wisdom: sat_add_spec(s.attributes.wisdom as int, b.wisdom as int),
        },
        armor: s.armor.raised(b.armor),
        max_hp: sat_add_spec(s.max_hp as int, b.max_hp as int),
        initiative: sat_add_spec(s.initiative as int, b.initiative as int),
        accuracy: sat_add_spec(s.accuracy as int, b.accuracy as int),
        defense: sat_add_spec(s.defense as int, b.defense as int),
        fortitude: sat_add_spec(s.fortitude as int, b.fortitude as int),
        reflex: sat_add_spec(s.reflex as int, b.reflex as int),
        will: sat_add_spec(s.will as int, b.will as int),
        reach: sat_add_spec(s.reach as int, b.reach as int),
        movement_rate: sat_add_spec(s.movement_rate as int, b.movement_rate as int),
        ..s
    }
}

/// A snapshot holding nothing: every value zero, no flags, no damage.
pub open spec fn default_stats(s: StatList) -> bool {
    &&& s.attributes == (AttributeList {
        strength: 0u32,
        dexterity: 0u32,
        endurance: 0u32,
        perception: 0u32,
        intellect: 0u32,
        wisdom: 0u32,
    })
    &&& s.armor.base_spec() == 0
    &&& forall|k: crate::damage::DamageKind| s.armor.amount_spec(k) == 0
    &&& s.resistance.base_spec() == 0
    &&& forall|k: crate::damage::DamageKind| s.resistance.amount_spec(k) == 0
    &&& s.max_hp == 0
    &&& s.initiative == 0
    &&& s.accuracy == 0
    &&& s.defense == 0
    &&& s.fortitude == 0
    &&& s.reflex == 0
    &&& s.will == 0
    &&& s.reach == 0
    &&& s.movement_rate == 0
    &&& !s.attack_disabled
    &&& !s.hidden
    &&& !s.melee
    &&& s.damage.components().len() == 0
    &&& s.damage.min_spec() == 0
    &&& s.damage.max_spec() == 0
}

impl Default for StatList {
    /// The zero snapshot.
    fn default() -> (r: StatList)
        ensures
            default_stats(r),
    {
        StatList {
            attributes: AttributeList {
                strength: 0,
                dexterity: 0,
                endurance: 0,
                perception: 0,
                intellect: 0,
                wisdom: 0,
            },
            armor: Armor::new(0),
            resistance: Armor::new(0),
            max_hp: 0,
            initiative: 0,
            accuracy: 0,
            defense: 0,
            fortitude: 0,
            reflex: 0,
            will: 0,
            reach: 0,
            movement_rate: 0,
            attack_disabled: false,
            hidden: false,
            melee: false,
            damage: DamageList::new(),
        }
    }
}

impl StatList {
    /// Folds one bonus contribution into the snapshot.
    pub fn add(&mut self, bonuses: &StatBonuses)
        ensures
            *final(self) == apply_bonuses(*old(self), *bonuses),
    {
        self.attributes.strength = sat_add(self.attributes.strength, bonuses.strength);
        self.attributes.dexterity = sat_add(self.attributes.dexterity, bonuses.dexterity);
        self.attributes.endurance = sat_add(self.attributes.endurance, bonuses.endurance);
        self.attributes.perception = sat_add(self.attributes.perception, bonuses.perception);
        self.attributes.intellect = sat_add(self.attributes.intellect, bonuses.intellect);
        self.attributes.wisdom = sat_add(self.attributes.wisdom, bonuses.wisdom);
        self.armor.raise(bonuses.armor);
        self.max_hp = sat_add(self.max_hp, bonuses.max_hp);
        self.initiative = sat_add(self.initiative, bonuses.initiative);
        self.accuracy = sat_add(self.accuracy, bonuses.accuracy);
        self.defense = sat_add(self.defense, bonuses.defense);
        self.fortitude = sat_add(self.fortitude, bonuses.fortitude);
        self.reflex = sat_add(self.reflex, bonuses.reflex);
        self.will = sat_add(self.will, bonuses.will);
        self.reach = sat_add(self.reach, bonuses.reach);
        self.movement_rate = sat_add(self.movement_rate, bonuses.movement_rate);
    }

    /// Folds one bonus contribution scaled by `times`, for per-level class
    /// growth.
    pub fn add_multiple(&mut self, bonuses: &StatBonuses, times: u32)
        ensures
            *final(self) == apply_bonuses(*old(self), sb_scale(*bonuses, times)),
    {
        let scaled = StatBonuses {
            strength: sat_mul(bonuses.strength, times),
            dexterity: sat_mul(bonuses.dexterity, times),
            endurance: sat_mul(bonuses.endurance, times),
            perception: sat_mul(bonuses.perception, times),
            intellect: sat_mul(bonuses.intellect, times),
            wisdom: sat_mul(bonuses.wisdom, times),
            max_hp: sat_mul(bonuses.max_hp, times),
            initiative: sat_mul(bonuses.initiative, times),
            accuracy: sat_mul(bonuses.accuracy, times),
            defense: sat_mul(bonuses.defense, times),
            fortitude: sat_mul(bonuses.fortitude, times),
            reflex: sat_mul(bonuses.reflex, times),
            will: sat_mul(bonuses.will, times),
            reach: sat_mul(bonuses.reach, times),
            movement_rate: sat_mul(bonuses.movement_rate, times),
            armor: sat_mul(bonuses.armor, times),
            base_damage: bonuses.base_damage,
        };
        self.add(&scaled);
    }

    /// Finishes a recompute: clamps the maximum hit points to what the hit
    /// point type can hold, and installs the damage profile from the picked
    /// base damage.  A base damage with no kind leaves an empty profile.
    pub fn finalize(&mut self, base_damage: Damage)
        requires
            base_damage.kind is Some ==> base_damage.min <= base_damage.max,
        ensures
            final(self).max_hp == if old(self).max_hp > i32::MAX as u32 {
                i32::MAX as u32
            } else {
                old(self).max_hp
            },
            base_damage.kind is Some ==> final(self).damage.components() == created_components(
                base_damage,
                Seq::empty(),
            ),
            base_damage.kind is Some ==> final(self).damage.min_spec() == base_damage.min,
            base_damage.kind is Some ==> final(self).damage.max_spec() == base_damage.max,
            base_damage.kind is None ==> final(self).damage.components().len() == 0,
            base_damage.kind is None ==> final(self).damage.min_spec() == 0,
            base_damage.kind is None ==> final(self).damage.max_spec() == 0,
            final(self).damage.wf(),
            *final(self) == (StatList {
                max_hp: final(self).max_hp,
                damage: final(self).damage,
                ..*old(self)
            }),
    {
        if self.max_hp > i32::MAX as u32 {
            self.max_hp = i32::MAX as u32;
        }
        let mut profile = DamageList::new();
        let no_bonuses: Vec<Damage> = Vec::new();
        proof {
            assert(crate::damage::sum_min(no_bonuses@) == 0);
            assert(crate::damage::sum_max(no_bonuses@) == 0);
        }
        profile.create(base_damage, &no_bonuses);
        proof {
            assert(no_bonuses@ =~= Seq::<Damage>::empty());
        }
        self.damage = profile;
    }
}

} // verus!
