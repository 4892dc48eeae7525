use sulis_combat::{
    AccuracyKind, Actor, ActorState, Armor, Damage, DamageKind, DamageList, DataError, Faction,
    HitKind, Location, Race, Registry, Rules, ScriptEntity, ScriptEntitySet, ScriptError,
    StatBonuses, TextArea,
};
use sulis_combat::script::unwrap_point;

fn test_rules() -> Rules {
    Rules {
        base_ap: 8,
        movement_ap: 2,
        attack_ap: 4,
        base_initiative: 10,
        graze_threshold: 25,
        hit_threshold: 50,
        crit_threshold: 95,
        graze_multiplier: 50,
        hit_multiplier: 100,
        crit_multiplier: 200,
        base_attribute: 10,
    }
}

fn combatant(hp: u32, ap: u32, reach: u32, melee: bool) -> ActorState {
    let template = Actor {
        race: Race { base_stats: StatBonuses::default() },
        levels: Vec::new(),
        items: Vec::new(),
        to_equip: Vec::new(),
    };
    let mut actor = ActorState::new(template);
    actor.stats.max_hp = hp;
    actor.init();
    actor.ap = ap;
    actor.stats.reach = reach;
    actor.stats.melee = melee;
    actor
}

fn at(x: i32, y: i32, area: u32) -> Location {
    Location { x, y, area }
}

#[test]
fn invalid_handle_fails_distinctly() {
    let mgr = Registry::new();
    let handle = ScriptEntity::invalid();
    assert_eq!(handle.try_unwrap_index(), Err(ScriptError::NoIndex));
    assert!(!handle.is_valid(&mgr));
    assert_eq!(handle.is_dead(&mgr), Err(ScriptError::NoIndex));
}

#[test]
fn stale_handle_fails_as_not_found() {
    let mut mgr = Registry::new();
    let idx = mgr.add_entity(combatant(10, 8, 2, true), at(0, 0, 0), Faction::Friendly);
    let handle = ScriptEntity::new(idx);
    assert!(handle.is_valid(&mgr));
    assert!(handle.try_unwrap(&mgr).is_ok());

    mgr.mark_for_removal(idx);
    mgr.sweep();
    // The same handle now fails with "not found", never a crash.
    assert!(!handle.is_valid(&mgr));
    assert_eq!(handle.is_dead(&mgr), Err(ScriptError::NotFound));
    assert!(matches!(handle.try_unwrap(&mgr), Err(ScriptError::NotFound)));
    // A handle with no index still reports the other failure.
    assert!(matches!(ScriptEntity::invalid().try_unwrap(&mgr), Err(ScriptError::NoIndex)));
}

#[test]
fn parent_and_target_must_differ() {
    let a = ScriptEntity::new(3);
    let b = ScriptEntity::new(3);
    let c = ScriptEntity::new(4);
    assert_eq!(a.check_not_equal(&b), Err(ScriptError::SameEntity));
    assert_eq!(a.check_not_equal(&c), Ok(()));
}

#[test]
fn weapon_attack_validates_before_touching_anything() {
    let rules = test_rules();
    let mut mgr = Registry::new();
    let att = mgr.add_entity(combatant(20, 8, 2, true), at(0, 0, 0), Faction::Friendly);
    let parent = ScriptEntity::new(att);

    assert!(matches!(
        parent.weapon_attack(&mut mgr, &rules, &ScriptEntity::invalid()),
        Err(ScriptError::NoIndex)
    ));
    assert!(matches!(
        parent.weapon_attack(&mut mgr, &rules, &ScriptEntity::new(att)),
        Err(ScriptError::SameEntity)
    ));
    assert!(matches!(
        parent.weapon_attack(&mut mgr, &rules, &ScriptEntity::new(77)),
        Err(ScriptError::NotFound)
    ));
    // Validation failures never spent the attacker's action points.
    assert_eq!(mgr.entity(att).actor.ap(), 8);
}

#[test]
fn weapon_attack_through_handles() {
    let rules = test_rules();
    let mut mgr = Registry::new();
    let mut attacker = combatant(20, 8, 2, true);
    attacker.stats.accuracy = 1000;
    let mut list = DamageList::new();
    list.create(Damage { min: 5, max: 5, kind: Some(DamageKind::Slashing) }, &Vec::new());
    attacker.stats.damage = list;
    let att = mgr.add_entity(attacker, at(0, 0, 0), Faction::Friendly);
    let def = mgr.add_entity(combatant(20, 8, 2, true), at(1, 0, 0), Faction::Hostile);

    let out = ScriptEntity::new(att)
        .weapon_attack(&mut mgr, &rules, &ScriptEntity::new(def))
        .unwrap();
    assert_eq!(out.hit_kind, HitKind::Crit);
    assert_eq!(out.total, 10);
    assert_eq!(mgr.entity(def).actor.hp(), 10);
}

#[test]
fn special_attack_rejects_inverted_ranges() {
    let rules = test_rules();
    let mut mgr = Registry::new();
    let att = mgr.add_entity(combatant(20, 8, 2, true), at(0, 0, 0), Faction::Friendly);
    let def = mgr.add_entity(combatant(20, 8, 2, true), at(1, 0, 0), Faction::Hostile);
    let r = ScriptEntity::new(att).special_attack(
        &mut mgr,
        &rules,
        &ScriptEntity::new(def),
        9,
        2,
        0,
        DamageKind::Fire,
        AccuracyKind::Dummy,
    );
    assert!(matches!(r, Err(ScriptError::InvalidRange)));
    assert_eq!(mgr.entity(def).actor.hp(), 20);
}

#[test]
fn take_damage_through_handle() {
    let mut mgr = Registry::new();
    let target = mgr.add_entity(combatant(20, 8, 2, true), at(0, 0, 0), Faction::Hostile);
    let dealt = ScriptEntity::new(target)
        .take_damage(&mut mgr, 4, 4, 0, DamageKind::Raw)
        .unwrap();
    assert_eq!(dealt, vec![(DamageKind::Raw, 4)]);
    assert_eq!(mgr.entity(target).actor.hp(), 16);
    assert!(matches!(
        ScriptEntity::new(target).take_damage(&mut mgr, 9, 3, 0, DamageKind::Raw),
        Err(ScriptError::InvalidRange)
    ));
}

#[test]
fn heal_and_remove_through_handles() {
    let rules = test_rules();
    let mut mgr = Registry::new();
    let e = mgr.add_entity(combatant(10, 8, 2, true), at(0, 0, 0), Faction::Friendly);
    let handle = ScriptEntity::new(e);
    handle.remove_hp(&mut mgr, 6).unwrap();
    assert_eq!(mgr.entity(e).actor.hp(), 4);
    handle.heal_damage(&mut mgr, 100).unwrap();
    assert_eq!(mgr.entity(e).actor.hp(), 10);
    handle.remove_ap(&mut mgr, 5).unwrap();
    assert_eq!(mgr.entity(e).actor.ap(), 3);
    assert_eq!(handle.has_ap_to_attack(&mgr, &rules), Ok(false));
    handle.compute_stats(&mut mgr, &rules).unwrap();
    assert_eq!(mgr.entity(e).actor.stats.initiative, rules.base_initiative);
}

#[test]
fn targets_skip_dead_hidden_and_other_areas() {
    let mut mgr = Registry::new();
    let parent = mgr.add_entity(combatant(10, 8, 2, true), at(0, 0, 0), Faction::Friendly);
    let visible_foe = mgr.add_entity(combatant(10, 8, 2, true), at(1, 0, 0), Faction::Hostile);
    let hidden_foe = {
        let mut c = combatant(10, 8, 2, true);
        c.stats.hidden = true;
        mgr.add_entity(c, at(2, 0, 0), Faction::Hostile)
    };
    let dead = {
        let mut c = combatant(10, 8, 2, true);
        c.remove_hp(100);
        mgr.add_entity(c, at(3, 0, 0), Faction::Hostile)
    };
    let elsewhere = mgr.add_entity(combatant(10, 8, 2, true), at(0, 0, 9), Faction::Neutral);
    let hidden_friend = {
        // A hidden non-hostile is still a target.
        let mut c = combatant(10, 8, 2, true);
        c.stats.hidden = true;
        mgr.add_entity(c, at(4, 0, 0), Faction::Friendly)
    };
    let _ = (hidden_foe, dead, elsewhere);

    let set = ScriptEntity::new(parent).targets(&mgr).unwrap();
    assert_eq!(set.parent, parent);
    assert_eq!(
        set.indices,
        vec![Some(parent), Some(visible_foe), Some(hidden_friend)]
    );
    assert!(ScriptEntity::invalid().targets(&mgr).is_err());
}

#[test]
fn filters_silently_drop_stale_and_empty_handles() {
    let rules = test_rules();
    let mut mgr = Registry::new();
    let parent = mgr.add_entity(combatant(10, 8, 2, true), at(0, 0, 0), Faction::Friendly);
    let foe = mgr.add_entity(combatant(10, 8, 2, true), at(1, 0, 0), Faction::Hostile);
    let gone = mgr.add_entity(combatant(10, 8, 2, true), at(2, 0, 0), Faction::Hostile);
    mgr.mark_for_removal(gone);
    mgr.sweep();

    let mut set = ScriptEntitySet::with_parent(parent);
    set.indices = vec![None, Some(gone), Some(77), Some(foe), Some(parent)];

    let out = set.without_self(&mgr, &rules).unwrap();
    // The hole, the swept entity and the unknown index all vanish quietly;
    // the parent itself is excluded by this filter.
    assert_eq!(out.indices, vec![Some(foe)]);
}

#[test]
fn hostile_and_friendly_split_by_faction() {
    let rules = test_rules();
    let mut mgr = Registry::new();
    let parent = mgr.add_entity(combatant(10, 8, 2, true), at(0, 0, 0), Faction::Friendly);
    let foe = mgr.add_entity(combatant(10, 8, 2, true), at(1, 0, 0), Faction::Hostile);
    let neutral = mgr.add_entity(combatant(10, 8, 2, true), at(2, 0, 0), Faction::Neutral);
    let ally = mgr.add_entity(combatant(10, 8, 2, true), at(3, 0, 0), Faction::Friendly);

    let mut set = ScriptEntitySet::with_parent(parent);
    set.indices = vec![Some(foe), Some(neutral), Some(ally)];

    let hostiles = set.hostile(&mgr, &rules).unwrap();
    assert_eq!(hostiles.indices, vec![Some(foe)]);
    let friendlies = set.friendly(&mgr, &rules).unwrap();
    assert_eq!(friendlies.indices, vec![Some(neutral), Some(ally)]);
}

#[test]
fn reachable_and_attackable_depend_on_reach_and_ap() {
    let rules = test_rules();
    let mut mgr = Registry::new();
    let parent = mgr.add_entity(combatant(10, 8, 2, true), at(0, 0, 0), Faction::Friendly);
    let near = mgr.add_entity(combatant(10, 8, 2, true), at(1, 0, 0), Faction::Hostile);
    let far = mgr.add_entity(combatant(10, 8, 2, true), at(10, 0, 0), Faction::Hostile);

    let mut set = ScriptEntitySet::with_parent(parent);
    set.indices = vec![Some(near), Some(far)];

    let reachable = set.reachable(&mgr, &rules).unwrap();
    assert_eq!(reachable.indices, vec![Some(near)]);
    let attackable = set.attackable(&mgr, &rules).unwrap();
    assert_eq!(attackable.indices, vec![Some(near)]);

    // Without the action points for an attack nothing is attackable, reach
    // or no reach.
    mgr.remove_ap(parent, 100);
    let attackable = set.attackable(&mgr, &rules).unwrap();
    assert!(attackable.indices.is_empty());
    let reachable = set.reachable(&mgr, &rules).unwrap();
    assert_eq!(reachable.indices, vec![Some(near)]);
}

#[test]
fn threatening_needs_a_working_melee_attacker_in_reach() {
    let rules = test_rules();
    let mut mgr = Registry::new();
    let parent = mgr.add_entity(combatant(10, 8, 2, true), at(0, 0, 0), Faction::Friendly);
    let melee_near = mgr.add_entity(combatant(10, 8, 2, true), at(1, 0, 0), Faction::Hostile);
    let archer_near = mgr.add_entity(combatant(10, 8, 2, false), at(1, 1, 0), Faction::Hostile);
    let disabled = {
        let mut c = combatant(10, 8, 2, true);
        c.stats.attack_disabled = true;
        mgr.add_entity(c, at(0, 1, 0), Faction::Hostile)
    };
    let melee_far = mgr.add_entity(combatant(10, 8, 2, true), at(9, 0, 0), Faction::Hostile);

    let mut set = ScriptEntitySet::with_parent(parent);
    set.indices = vec![Some(melee_near), Some(archer_near), Some(disabled), Some(melee_far)];
    let out = set.threatening(&mgr, &rules).unwrap();
    assert_eq!(out.indices, vec![Some(melee_near)]);
}

#[test]
fn visibility_filter_needs_distance_and_line_of_sight() {
    let mut mgr = Registry::new();
    let parent = mgr.add_entity(combatant(10, 8, 2, true), at(0, 0, 0), Faction::Friendly);
    let near = mgr.add_entity(combatant(10, 8, 2, true), at(2, 0, 0), Faction::Hostile);
    let near_blocked = mgr.add_entity(combatant(10, 8, 2, true), at(0, 2, 0), Faction::Hostile);
    let far = mgr.add_entity(combatant(10, 8, 2, true), at(30, 0, 0), Faction::Hostile);

    let mut set = ScriptEntitySet::with_parent(parent);
    set.indices = vec![Some(near), Some(near_blocked), Some(far)];
    // Line-of-sight verdicts come from the area map, one per position.
    let los = vec![true, false, true];

    let within = set.visible_within(&mgr, 10, &los).unwrap();
    assert_eq!(within.indices, vec![Some(near)]);
    let unbounded = set.visible(&mgr, &los).unwrap();
    assert_eq!(unbounded.indices, vec![Some(near), Some(far)]);
}

#[test]
fn filters_fail_when_the_parent_is_stale() {
    let rules = test_rules();
    let mut mgr = Registry::new();
    let parent = mgr.add_entity(combatant(10, 8, 2, true), at(0, 0, 0), Faction::Friendly);
    let mut set = ScriptEntitySet::with_parent(parent);
    set.indices = vec![Some(parent)];
    mgr.mark_for_removal(parent);
    mgr.sweep();
    assert!(matches!(set.hostile(&mgr, &rules), Err(ScriptError::NotFound)));
}

#[test]
fn set_construction_and_append() {
    let mut mgr = Registry::new();
    let a = mgr.add_entity(combatant(10, 8, 2, true), at(0, 0, 0), Faction::Friendly);
    let b = mgr.add_entity(combatant(10, 8, 2, true), at(1, 0, 0), Faction::Hostile);

    let pair = {
        let ea = mgr.entity(a);
        let eb = mgr.entity(b);
        ScriptEntitySet::from_pair(ea, eb)
    };
    assert_eq!(pair.parent, a);
    assert_eq!(pair.indices, vec![Some(b)]);
    assert!(!pair.is_empty());
    assert_eq!(pair.parent_entity().index, Some(a));

    let listed = {
        let ea = mgr.entity(a);
        ScriptEntitySet::new(ea, &vec![None, Some(b)])
    };
    assert_eq!(listed.indices, vec![None, Some(b)]);

    let mut base = ScriptEntitySet::with_parent(a);
    assert!(base.is_empty());
    base.affected_points.push((5, 5));
    let mut other = ScriptEntitySet::with_parent(a);
    other.indices = vec![Some(b)];
    other.selected_point = Some((1, 2));
    other.affected_points.push((6, 6));
    other.surface = Some(9);
    base.append(&other);
    assert_eq!(base.indices, vec![Some(b)]);
    assert_eq!(base.selected_point, Some((1, 2)));
    assert_eq!(base.affected_points, vec![(5, 5), (6, 6)]);
    assert_eq!(base.surface, Some(9));
}

#[test]
fn first_skips_holes_and_reports_empty_sets() {
    let mut set = ScriptEntitySet::with_parent(0);
    assert_eq!(set.first().unwrap_err(), ScriptError::EmptySet);
    set.indices = vec![None, None];
    assert_eq!(set.first().unwrap_err(), ScriptError::EmptySet);
    set.indices = vec![None, Some(4), Some(2)];
    assert_eq!(set.first().unwrap().index, Some(4));
}

#[test]
fn saved_sets_are_revalidated_against_the_remap_table() {
    let remap = vec![(10, 0), (11, 1), (12, 2)];

    let mut set = ScriptEntitySet::with_parent(10);
    set.indices = vec![Some(12), None, Some(11)];
    set.selected_point = Some((3, 4));
    assert_eq!(set.update_entity_refs_on_load(&remap), Ok(()));
    assert_eq!(set.parent, 0);
    assert_eq!(set.indices, vec![Some(2), None, Some(1)]);
    assert_eq!(set.selected_point, Some((3, 4)));

    // A missing parent fails by name and leaves the set untouched.
    let mut bad_parent = ScriptEntitySet::with_parent(99);
    bad_parent.indices = vec![Some(10)];
    assert_eq!(
        bad_parent.update_entity_refs_on_load(&remap),
        Err(DataError::InvalidParent(99))
    );
    assert_eq!(bad_parent.parent, 99);
    assert_eq!(bad_parent.indices, vec![Some(10)]);

    // So does the first missing target.
    let mut bad_target = ScriptEntitySet::with_parent(10);
    bad_target.indices = vec![Some(11), Some(55), Some(66)];
    assert_eq!(
        bad_target.update_entity_refs_on_load(&remap),
        Err(DataError::InvalidTarget(55))
    );
    assert_eq!(bad_target.parent, 10);
    assert_eq!(bad_target.indices, vec![Some(11), Some(55), Some(66)]);
}

#[test]
fn points_need_both_coordinates() {
    assert_eq!(unwrap_point(Some(3), Some(-2)), Ok((3, -2)));
    assert_eq!(unwrap_point(None, Some(1)), Err(ScriptError::MissingCoordinate));
    assert_eq!(unwrap_point(Some(1), None), Err(ScriptError::MissingCoordinate));
    assert_eq!(unwrap_point(None, None), Err(ScriptError::MissingCoordinate));
}

#[test]
fn text_area_carries_its_text() {
    let empty = TextArea::empty();
    assert!(empty.text.is_none());
    let titled = TextArea::new("the fallen gate");
    assert_eq!(titled.text.as_deref(), Some("the fallen gate"));
}
