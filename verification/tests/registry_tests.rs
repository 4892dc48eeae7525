use sulis_combat::{
    AccuracyKind, Actor, ActorState, Armor, Damage, DamageKind, DamageList, Faction, HitKind,
    Location, Race, Registry, Rules, StatBonuses,
};

fn test_rules() -> Rules {
    Rules {
        base_ap: 8,
        movement_ap: 2,
        attack_ap: 4,
        base_initiative: 10,
        graze_threshold: 25,
        hit_threshold: 50,
        crit_threshold: 95,
        graze_multiplier: 50,
        hit_multiplier: 100,
        crit_multiplier: 200,
        base_attribute: 10,
    }
}

fn combatant(
    hp: u32,
    ap: u32,
    accuracy: u32,
    defense: u32,
    slashing_armor: u32,
    dmg: Option<(u32, u32)>,
) -> ActorState {
    let template = Actor {
        race: Race { base_stats: StatBonuses::default() },
        levels: Vec::new(),
        items: Vec::new(),
        to_equip: Vec::new(),
    };
    let mut actor = ActorState::new(template);
    actor.stats.max_hp = hp;
    actor.init();
    actor.ap = ap;
    actor.stats.accuracy = accuracy;
    actor.stats.defense = defense;
    actor.stats.reach = 2;
    actor.stats.melee = true;
    let mut armor = Armor::new(0);
    armor.set_kind(DamageKind::Slashing, slashing_armor);
    actor.stats.armor = armor;
    if let Some((min, max)) = dmg {
        let mut list = DamageList::new();
        list.create(Damage { min, max, kind: Some(DamageKind::Slashing) }, &Vec::new());
        actor.stats.damage = list;
    }
    actor
}

fn at(x: i32, y: i32) -> Location {
    Location { x, y, area: 0 }
}

#[test]
fn indices_are_stable_and_checked() {
    let mut mgr = Registry::new();
    let a = mgr.add_entity(combatant(10, 8, 0, 0, 0, None), at(0, 0), Faction::Friendly);
    let b = mgr.add_entity(combatant(10, 8, 0, 0, 0, None), at(1, 0), Faction::Hostile);
    assert_eq!(a, 0);
    assert_eq!(b, 1);
    assert!(mgr.has_entity(a));
    assert!(mgr.has_entity(b));
    assert_eq!(mgr.entity_checked(a).unwrap().index, a);
    // A stale or out-of-range index resolves to nothing, never a crash.
    assert!(mgr.entity_checked(99).is_none());
    assert!(!mgr.has_entity(99));
}

#[test]
fn removal_is_marked_then_swept_and_indices_are_not_reused() {
    let mut mgr = Registry::new();
    let a = mgr.add_entity(combatant(10, 8, 0, 0, 0, None), at(0, 0), Faction::Friendly);
    let b = mgr.add_entity(combatant(10, 8, 0, 0, 0, None), at(1, 0), Faction::Hostile);

    mgr.mark_for_removal(a);
    // Marked, not yet swept: in-flight references still resolve.
    assert!(mgr.has_entity(a));
    mgr.sweep();
    assert!(!mgr.has_entity(a));
    assert!(mgr.has_entity(b));
    // Marking a stale index is silently ignored.
    mgr.mark_for_removal(a);
    mgr.mark_for_removal(42);
    // The freed slot is never handed out again.
    let c = mgr.add_entity(combatant(10, 8, 0, 0, 0, None), at(2, 0), Faction::Neutral);
    assert_eq!(c, 2);
    assert_eq!(mgr.entity_indices(), vec![1, 2]);
}

#[test]
fn turn_bookkeeping_via_registry() {
    let rules = test_rules();
    let mut mgr = Registry::new();
    let a = mgr.add_entity(combatant(10, 0, 0, 0, 0, None), at(0, 0), Faction::Friendly);
    mgr.init_turn(&rules, a);
    let ap = mgr.entity(a).actor.ap();
    assert_eq!(ap, rules.base_ap);
    assert!(ap <= rules.base_ap);
    mgr.end_turn(a);
    assert_eq!(mgr.entity(a).actor.ap(), 0);
}

#[test]
fn attack_that_always_crits_is_fully_determined() {
    let rules = test_rules();
    let mut mgr = Registry::new();
    // Margin is at least 1 + 1000 - 0 > 95: every roll crits.  Fixed 5..5
    // damage at multiplier 200 is 10, less 3 slashing armor: 7.
    let att = mgr.add_entity(
        combatant(20, 8, 1000, 0, 0, Some((5, 5))),
        at(0, 0),
        Faction::Friendly,
    );
    let def = mgr.add_entity(combatant(20, 8, 0, 0, 3, None), at(1, 0), Faction::Hostile);

    let out = mgr.attack(&rules, att, def);
    assert_eq!(out.hit_kind, HitKind::Crit);
    assert_eq!(out.components, vec![(DamageKind::Slashing, 7)]);
    assert_eq!(out.total, 7);
    assert_eq!(mgr.entity(def).actor.hp(), 13);
    // The attack cost was paid.
    assert_eq!(mgr.entity(att).actor.ap(), 8 - rules.attack_ap);
}

#[test]
fn missed_attack_deals_nothing_but_still_costs_ap() {
    let rules = test_rules();
    let mut mgr = Registry::new();
    // Margin is at most 100 - 1000 < 25: every roll misses.
    let att = mgr.add_entity(
        combatant(20, 8, 0, 0, 0, Some((5, 5))),
        at(0, 0),
        Faction::Friendly,
    );
    let def = mgr.add_entity(combatant(20, 8, 0, 1000, 0, None), at(1, 0), Faction::Hostile);

    let out = mgr.attack(&rules, att, def);
    assert_eq!(out.hit_kind, HitKind::Miss);
    assert!(out.components.is_empty());
    assert_eq!(out.total, 0);
    assert_eq!(mgr.entity(def).actor.hp(), 20);
    assert_eq!(mgr.entity(att).actor.ap(), 8 - rules.attack_ap);
}

#[test]
fn fully_absorbed_attack_leaves_the_defender_alone() {
    let rules = test_rules();
    let mut mgr = Registry::new();
    // Crit deals 2 * 200 / 100 = 4; armor 10 absorbs it all.
    let att = mgr.add_entity(
        combatant(20, 8, 1000, 0, 0, Some((2, 2))),
        at(0, 0),
        Faction::Friendly,
    );
    let def = mgr.add_entity(combatant(20, 8, 0, 0, 10, None), at(1, 0), Faction::Hostile);

    let out = mgr.attack(&rules, att, def);
    assert_eq!(out.hit_kind, HitKind::Crit);
    assert!(out.components.is_empty());
    assert_eq!(out.total, 0);
    assert_eq!(mgr.entity(def).actor.hp(), 20);
}

#[test]
fn attack_never_drives_hp_negative() {
    let rules = test_rules();
    let mut mgr = Registry::new();
    let att = mgr.add_entity(
        combatant(20, 8, 1000, 0, 0, Some((50, 50))),
        at(0, 0),
        Faction::Friendly,
    );
    let def = mgr.add_entity(combatant(5, 8, 0, 0, 0, None), at(1, 0), Faction::Hostile);

    let out = mgr.attack(&rules, att, def);
    assert_eq!(out.total, 100);
    assert_eq!(mgr.entity(def).actor.hp(), 0);
    assert!(mgr.entity(def).actor.is_dead());
}

#[test]
fn special_attack_pierces_armor_and_costs_no_ap() {
    let rules = test_rules();
    let mut mgr = Registry::new();
    let att = mgr.add_entity(combatant(20, 8, 1000, 0, 0, None), at(0, 0), Faction::Friendly);
    let def = mgr.add_entity(combatant(20, 8, 0, 0, 6, None), at(1, 0), Faction::Hostile);

    // Fixed 3..3 at crit multiplier 200 is 6; armor 6 less 4 piercing
    // leaves a pool of 2, so 4 get through.
    let out = mgr.special_attack(
        &rules,
        att,
        def,
        3,
        3,
        4,
        DamageKind::Slashing,
        AccuracyKind::Dummy,
    );
    assert_eq!(out.hit_kind, HitKind::Crit);
    assert_eq!(out.components, vec![(DamageKind::Slashing, 4)]);
    assert_eq!(mgr.entity(def).actor.hp(), 16);
    // No action points were spent on the special attack.
    assert_eq!(mgr.entity(att).actor.ap(), 8);
}

#[test]
fn special_attack_rolls_against_the_selected_defense() {
    let rules = test_rules();
    let mut mgr = Registry::new();
    let att = mgr.add_entity(combatant(20, 8, 0, 0, 0, None), at(0, 0), Faction::Friendly);
    let def = mgr.add_entity(combatant(20, 8, 0, 0, 0, None), at(1, 0), Faction::Hostile);
    // The defender's will is a wall; rolled against it, everything misses.
    {
        // Set the will through a fresh combatant, then re-add.
        let mut high_will = combatant(20, 8, 0, 0, 0, None);
        high_will.stats.will = 2000;
        mgr.mark_for_removal(def);
        mgr.sweep();
        let def2 = mgr.add_entity(high_will, at(1, 0), Faction::Hostile);
        let out = mgr.special_attack(
            &rules,
            att,
            def2,
            3,
            3,
            0,
            DamageKind::Raw,
            AccuracyKind::Will,
        );
        assert_eq!(out.hit_kind, HitKind::Miss);
        assert_eq!(mgr.entity(def2).actor.hp(), 20);
    }
}

#[test]
fn take_damage_ignores_tiers_and_respects_armor() {
    let mut mgr = Registry::new();
    let target = mgr.add_entity(combatant(20, 8, 0, 0, 0, None), at(0, 0), Faction::Hostile);
    let dealt = mgr.take_damage(target, 5, 5, 0, DamageKind::Fire);
    assert_eq!(dealt, vec![(DamageKind::Fire, 5)]);
    assert_eq!(mgr.entity(target).actor.hp(), 15);

    // Fire armor absorbs it all; nothing changes.
    let armored = {
        let mut c = combatant(20, 8, 0, 0, 0, None);
        let mut armor = Armor::new(0);
        armor.set_kind(DamageKind::Fire, 9);
        c.stats.armor = armor;
        mgr.add_entity(c, at(1, 0), Faction::Hostile)
    };
    let dealt = mgr.take_damage(armored, 5, 5, 0, DamageKind::Fire);
    assert!(dealt.is_empty());
    assert_eq!(mgr.entity(armored).actor.hp(), 20);
}

#[test]
fn heal_damage_caps_at_max_hp() {
    let mut mgr = Registry::new();
    let target = mgr.add_entity(combatant(12, 8, 0, 0, 0, None), at(0, 0), Faction::Friendly);
    mgr.remove_hp(target, 7);
    assert_eq!(mgr.entity(target).actor.hp(), 5);
    mgr.heal_damage(target, 3);
    assert_eq!(mgr.entity(target).actor.hp(), 8);
    mgr.heal_damage(target, 1000);
    assert_eq!(mgr.entity(target).actor.hp(), 12);
}

#[test]
fn registry_remove_ap_and_hp_clamp() {
    let mut mgr = Registry::new();
    let e = mgr.add_entity(combatant(10, 6, 0, 0, 0, None), at(0, 0), Faction::Friendly);
    mgr.remove_ap(e, 100);
    assert_eq!(mgr.entity(e).actor.ap(), 0);
    mgr.remove_hp(e, 100);
    assert_eq!(mgr.entity(e).actor.hp(), 0);
}

#[test]
fn advance_turn_wraps_in_index_order_and_skips_holes() {
    let rules = test_rules();
    let mut mgr = Registry::new();
    let a = mgr.add_entity(combatant(10, 8, 0, 0, 0, None), at(0, 0), Faction::Friendly);
    let b = mgr.add_entity(combatant(10, 8, 0, 0, 0, None), at(1, 0), Faction::Hostile);
    let c = mgr.add_entity(combatant(10, 8, 0, 0, 0, None), at(2, 0), Faction::Hostile);

    mgr.init_turn(&rules, a);
    let next = mgr.advance_turn(&rules, a);
    assert_eq!(next, b);
    // The previous entity forfeited its points; the next got a fresh turn.
    assert_eq!(mgr.entity(a).actor.ap(), 0);
    assert_eq!(mgr.entity(b).actor.ap(), rules.base_ap);

    // A swept entity is skipped in the order.
    mgr.mark_for_removal(c);
    mgr.sweep();
    let next = mgr.advance_turn(&rules, b);
    assert_eq!(next, a);
    assert_eq!(mgr.entity(b).actor.ap(), 0);
    assert_eq!(mgr.entity(a).actor.ap(), rules.base_ap);
}

#[test]
fn advance_turn_with_one_entity_returns_itself() {
    let rules = test_rules();
    let mut mgr = Registry::new();
    let only = mgr.add_entity(combatant(10, 3, 0, 0, 0, None), at(0, 0), Faction::Friendly);
    let next = mgr.advance_turn(&rules, only);
    assert_eq!(next, only);
    assert_eq!(mgr.entity(only).actor.ap(), rules.base_ap);
}

#[test]
fn entity_distance_is_in_tiles() {
    let mut mgr = Registry::new();
    let a = mgr.add_entity(combatant(10, 8, 0, 0, 0, None), at(0, 0), Faction::Friendly);
    let b = mgr.add_entity(combatant(10, 8, 0, 0, 0, None), at(3, -4), Faction::Hostile);
    let ea = mgr.entity(a);
    let eb = mgr.entity(b);
    assert_eq!(ea.dist_to_entity(eb), 4);
    assert!(ea.is_hostile(eb));
    assert!(!eb.is_hostile(eb));
}
