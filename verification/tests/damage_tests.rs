use sulis_combat::{Armor, Damage, DamageKind, DamageList};
use sulis_combat::damage::{mitigate, total_damage};

fn slashing(min: u32, max: u32) -> Damage {
    Damage { min, max, kind: Some(DamageKind::Slashing) }
}

#[test]
fn single_component_partially_absorbed() {
    // Base damage 5..5 slashing against slashing armor 3 at full multiplier
    // leaves exactly 2.
    let mut list = DamageList::new();
    list.create(slashing(5, 5), &Vec::new());
    let mut armor = Armor::new(0);
    armor.set_kind(DamageKind::Slashing, 3);
    let out = list.roll(&armor, 100);
    assert_eq!(out, vec![(DamageKind::Slashing, 2)]);
}

#[test]
fn single_component_fully_absorbed() {
    // Armor 10 swallows a 5..5 roll whole: the output is empty, not zero.
    let mut list = DamageList::new();
    list.create(slashing(5, 5), &Vec::new());
    let mut armor = Armor::new(0);
    armor.set_kind(DamageKind::Slashing, 10);
    let out = list.roll(&armor, 100);
    assert_eq!(out, Vec::new());
}

#[test]
fn two_kinds_with_no_armor() {
    // Base 1..1 slashing plus a 2..2 fire bonus, no armor: both come
    // through in kind order.
    let mut list = DamageList::new();
    let bonuses = vec![Damage { min: 2, max: 2, kind: Some(DamageKind::Fire) }];
    list.create(slashing(1, 1), &bonuses);
    let armor = Armor::new(0);
    let out = list.roll(&armor, 100);
    assert_eq!(out, vec![(DamageKind::Slashing, 1), (DamageKind::Fire, 2)]);
}

#[test]
fn empty_list_rolls_nothing() {
    let list = DamageList::new();
    let armor = Armor::new(5);
    let out = list.roll(&armor, 100);
    assert!(out.is_empty());
    assert_eq!(list.min(), 0);
    assert_eq!(list.max(), 0);
}

#[test]
fn base_without_kind_is_rejected() {
    // Malformed content: a base component with no kind creates nothing.
    let mut list = DamageList::new();
    list.create(Damage { min: 4, max: 9, kind: None }, &Vec::new());
    assert_eq!(list.min(), 0);
    assert_eq!(list.max(), 0);
    let out = list.roll(&Armor::new(0), 100);
    assert!(out.is_empty());
}

#[test]
fn unset_kind_bonus_merges_into_base() {
    // A kindless bonus never opens a bucket of its own: it lands in the
    // base component, so its damage is mitigated by the base kind's armor.
    let mut list = DamageList::new();
    let bonuses = vec![Damage { min: 3, max: 3, kind: None }];
    list.create(slashing(2, 2), &bonuses);
    assert_eq!(list.min(), 5);
    assert_eq!(list.max(), 5);
    let out = list.roll(&Armor::new(0), 100);
    assert_eq!(out, vec![(DamageKind::Slashing, 5)]);
}

#[test]
fn same_kind_bonus_merges_into_base() {
    let mut list = DamageList::new();
    let bonuses = vec![slashing(1, 2), slashing(3, 4)];
    list.create(slashing(1, 1), &bonuses);
    assert_eq!(list.min(), 5);
    assert_eq!(list.max(), 7);
}

#[test]
fn same_kind_bonuses_merge_into_one_bucket() {
    // Two fire bonuses yield a single fire bucket holding their sum.
    let mut list = DamageList::new();
    let bonuses = vec![
        Damage { min: 2, max: 2, kind: Some(DamageKind::Fire) },
        Damage { min: 3, max: 3, kind: Some(DamageKind::Fire) },
    ];
    list.create(slashing(1, 1), &bonuses);
    let out = list.roll(&Armor::new(0), 100);
    assert_eq!(out, vec![(DamageKind::Slashing, 1), (DamageKind::Fire, 5)]);
}

#[test]
fn totals_do_not_depend_on_bonus_order() {
    // The merged totals are the same whichever order the bonuses came in.
    let a = Damage { min: 1, max: 2, kind: Some(DamageKind::Fire) };
    let b = Damage { min: 3, max: 5, kind: Some(DamageKind::Cold) };
    let c = Damage { min: 7, max: 11, kind: None };

    let mut one = DamageList::new();
    one.create(slashing(2, 4), &vec![a, b, c]);
    let mut two = DamageList::new();
    two.create(slashing(2, 4), &vec![c, b, a]);

    assert_eq!(one.min(), two.min());
    assert_eq!(one.max(), two.max());
    assert_eq!(one.min(), 13);
    assert_eq!(one.max(), 22);
}

#[test]
fn multiplier_truncates_toward_zero() {
    // 3 * 150 / 100 is 4.5: a fixed 3..3 roll at multiplier 150 deals 4,
    // truncated, never rounded up.
    let mut list = DamageList::new();
    list.create(slashing(3, 3), &Vec::new());
    let out = list.roll(&Armor::new(0), 150);
    assert_eq!(out, vec![(DamageKind::Slashing, 4)]);
}

#[test]
fn fixed_ranges_roll_deterministically() {
    // With min == max everywhere the outcome is pinned; repeated rolls
    // agree.
    let mut list = DamageList::new();
    let bonuses = vec![Damage { min: 2, max: 2, kind: Some(DamageKind::Fire) }];
    list.create(slashing(4, 4), &bonuses);
    let mut armor = Armor::new(0);
    armor.set_kind(DamageKind::Slashing, 1);
    let first = list.roll(&armor, 100);
    for _ in 0..20 {
        assert_eq!(list.roll(&armor, 100), first);
    }
    assert_eq!(first, vec![(DamageKind::Slashing, 3), (DamageKind::Fire, 2)]);
}

#[test]
fn rolls_never_emit_zero_amounts() {
    let mut list = DamageList::new();
    let bonuses = vec![Damage { min: 0, max: 3, kind: Some(DamageKind::Fire) }];
    list.create(slashing(0, 3), &bonuses);
    let mut armor = Armor::new(0);
    armor.set_kind(DamageKind::Slashing, 1);
    for _ in 0..50 {
        for (_, amount) in list.roll(&armor, 100) {
            assert!(amount > 0);
        }
    }
}

#[test]
fn armor_pool_is_shared_across_kinds() {
    // The pool comes from the base kind and is consumed across components
    // in order: 6 armor absorbs all 5 slashing, then 1 of the fire.
    let items = vec![(DamageKind::Slashing, 5), (DamageKind::Fire, 3)];
    let out = mitigate(&items, 6);
    assert_eq!(out, vec![(DamageKind::Fire, 2)]);
}

#[test]
fn mitigate_emits_remainder_only() {
    let items = vec![(DamageKind::Crushing, 4)];
    assert_eq!(mitigate(&items, 0), vec![(DamageKind::Crushing, 4)]);
    assert_eq!(mitigate(&items, 4), Vec::new());
    assert_eq!(mitigate(&items, 3), vec![(DamageKind::Crushing, 1)]);
}

#[test]
fn total_damage_sums_amounts() {
    let items = vec![(DamageKind::Slashing, 5), (DamageKind::Fire, 3)];
    assert_eq!(total_damage(&items), 8);
    assert_eq!(total_damage(&Vec::new()), 0);
}

#[test]
fn damage_add_and_mult() {
    let mut d = slashing(2, 3);
    d.add(Damage { min: 1, max: 4, kind: Some(DamageKind::Fire) });
    assert_eq!(d.min, 3);
    assert_eq!(d.max, 7);
    assert_eq!(d.kind, Some(DamageKind::Slashing));

    let scaled = d.mult(3);
    assert_eq!(scaled.min, 9);
    assert_eq!(scaled.max, 21);
    assert_eq!(scaled.kind, Some(DamageKind::Slashing));
}

#[test]
fn damage_default_is_neutral() {
    let d = Damage::default();
    assert_eq!(d.min, 0);
    assert_eq!(d.max, 0);
    assert_eq!(d.kind, None);
}

#[test]
fn damage_roll_stays_in_range() {
    let d = slashing(3, 7);
    for _ in 0..100 {
        let r = d.roll();
        assert!((3..=7).contains(&r));
    }
}
