use sulis_combat::{Damage, DamageKind, HitKind, Rules};

fn test_rules() -> Rules {
    Rules {
        base_ap: 8,
        movement_ap: 1,
        attack_ap: 4,
        base_initiative: 10,
        graze_threshold: 25,
        hit_threshold: 50,
        crit_threshold: 95,
        graze_multiplier: 50,
        hit_multiplier: 100,
        crit_multiplier: 200,
        base_attribute: 10,
    }
}

#[test]
fn hit_tier_boundaries() {
    let rules = test_rules();
    // margin = roll + accuracy - defense
    assert_eq!(rules.hit_tier(0, 0, 25), HitKind::Miss);
    assert_eq!(rules.hit_tier(0, 0, 26), HitKind::Graze);
    assert_eq!(rules.hit_tier(0, 0, 50), HitKind::Graze);
    assert_eq!(rules.hit_tier(0, 0, 51), HitKind::Hit);
    assert_eq!(rules.hit_tier(0, 0, 95), HitKind::Hit);
    assert_eq!(rules.hit_tier(0, 0, 96), HitKind::Crit);
}

#[test]
fn hit_tier_uses_accuracy_against_defense() {
    let rules = test_rules();
    // 40 + 30 - 20 = 50: still a graze.
    assert_eq!(rules.hit_tier(30, 20, 40), HitKind::Graze);
    // 40 + 31 - 20 = 51: a hit.
    assert_eq!(rules.hit_tier(31, 20, 40), HitKind::Hit);
    // A wall of defense turns everything into a miss.
    assert_eq!(rules.hit_tier(0, 1000, 100), HitKind::Miss);
}

#[test]
fn attack_roll_with_overwhelming_accuracy_always_crits() {
    let rules = test_rules();
    for _ in 0..50 {
        assert_eq!(rules.attack_roll(1000, 0), HitKind::Crit);
    }
}

#[test]
fn attack_roll_against_overwhelming_defense_always_misses() {
    let rules = test_rules();
    for _ in 0..50 {
        assert_eq!(rules.attack_roll(0, 1000), HitKind::Miss);
    }
}

#[test]
fn compute_damage_from_picks_widest_range() {
    let rules = test_rules();
    let candidates = vec![
        Damage { min: 1, max: 3, kind: Some(DamageKind::Slashing) },
        Damage { min: 2, max: 8, kind: Some(DamageKind::Fire) },
        Damage { min: 1, max: 2, kind: Some(DamageKind::Cold) },
    ];
    let picked = rules.compute_damage_from(&candidates);
    assert_eq!(picked.kind, Some(DamageKind::Fire));
    assert_eq!(picked.min, 2);
    assert_eq!(picked.max, 8);
}

#[test]
fn compute_damage_from_prefers_earlier_on_ties() {
    let rules = test_rules();
    let candidates = vec![
        Damage { min: 2, max: 4, kind: Some(DamageKind::Slashing) },
        Damage { min: 3, max: 3, kind: Some(DamageKind::Fire) },
    ];
    let picked = rules.compute_damage_from(&candidates);
    assert_eq!(picked.kind, Some(DamageKind::Slashing));
}

#[test]
fn compute_damage_from_nothing_is_neutral() {
    let rules = test_rules();
    let picked = rules.compute_damage_from(&Vec::new());
    assert_eq!(picked.min, 0);
    assert_eq!(picked.max, 0);
    assert_eq!(picked.kind, None);
}
