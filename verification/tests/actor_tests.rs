use sulis_combat::{
    Actor, ActorState, Attribute, AttributeList, ChangeListenerList, Class, Damage, DamageKind,
    Equippable, Item, Race, Rules, Slot, StatBonuses,
};

fn test_rules() -> Rules {
    Rules {
        base_ap: 8,
        movement_ap: 2,
        attack_ap: 4,
        base_initiative: 10,
        graze_threshold: 25,
        hit_threshold: 50,
        crit_threshold: 95,
        graze_multiplier: 50,
        hit_multiplier: 100,
        crit_multiplier: 200,
        base_attribute: 10,
    }
}

fn bare_actor() -> Actor {
    Actor {
        race: Race { base_stats: StatBonuses::default() },
        levels: Vec::new(),
        items: Vec::new(),
        to_equip: Vec::new(),
    }
}

fn sword() -> Item {
    let mut bonuses = StatBonuses::default();
    bonuses.accuracy = 5;
    bonuses.reach = 2;
    bonuses.base_damage = Some(Damage { min: 2, max: 6, kind: Some(DamageKind::Slashing) });
    Item { equippable: Some(Equippable { slot: Slot::HeldMain, ranged: false, bonuses }) }
}

#[test]
fn remove_hp_clamps_at_zero_and_kills() {
    let mut actor = ActorState::new(bare_actor());
    actor.stats.max_hp = 10;
    actor.init();
    assert_eq!(actor.hp(), 10);
    assert!(!actor.is_dead());

    actor.remove_hp(15);
    assert_eq!(actor.hp(), 0);
    assert!(actor.is_dead());
}

#[test]
fn remove_hp_exact_when_it_fits() {
    let mut actor = ActorState::new(bare_actor());
    actor.stats.max_hp = 10;
    actor.init();
    actor.remove_hp(4);
    assert_eq!(actor.hp(), 6);
}

#[test]
fn remove_ap_clamps_at_zero() {
    let rules = test_rules();
    let mut actor = ActorState::new(bare_actor());
    actor.init_turn(&rules);
    assert_eq!(actor.ap(), 8);
    actor.remove_ap(3);
    assert_eq!(actor.ap(), 5);
    actor.remove_ap(100);
    assert_eq!(actor.ap(), 0);
}

#[test]
fn turn_economy() {
    let rules = test_rules();
    let mut actor = ActorState::new(bare_actor());
    assert_eq!(actor.ap(), 0);
    actor.init_turn(&rules);
    assert_eq!(actor.ap(), rules.base_ap);
    assert!(actor.ap() <= rules.base_ap);
    actor.end_turn();
    assert_eq!(actor.ap(), 0);
    // The reset happens at every turn start, not cumulatively.
    actor.init_turn(&rules);
    actor.init_turn(&rules);
    assert_eq!(actor.ap(), rules.base_ap);
}

#[test]
fn add_hp_never_exceeds_max() {
    let mut actor = ActorState::new(bare_actor());
    actor.stats.max_hp = 10;
    actor.init();
    actor.remove_hp(6);
    actor.add_hp(3);
    assert_eq!(actor.hp(), 7);
    actor.add_hp(100);
    assert_eq!(actor.hp(), 10);
}

#[test]
fn can_attack_needs_ap_whatever_the_reach() {
    let rules = test_rules();
    let mut actor = ActorState::new(bare_actor());
    actor.stats.reach = 100;
    actor.ap = rules.attack_ap - 1;
    // Even point-blank the attack is refused without the action points.
    assert!(!actor.can_attack(&rules, 0));
    actor.ap = rules.attack_ap;
    assert!(actor.can_attack(&rules, 0));
    // And reach still matters once the points are there.
    assert!(!actor.can_attack(&rules, 100));
}

#[test]
fn can_reach_is_strict() {
    let mut actor = ActorState::new(bare_actor());
    actor.stats.reach = 2;
    assert!(actor.can_reach(1));
    assert!(!actor.can_reach(2));
}

#[test]
fn move_cost_scales_with_squares() {
    let rules = test_rules();
    let actor = ActorState::new(bare_actor());
    assert_eq!(actor.get_move_ap_cost(&rules, 3), 6);
    assert_eq!(actor.get_move_ap_cost(&rules, 0), 0);
}

#[test]
fn compute_stats_folds_race_levels_and_items() {
    let rules = test_rules();
    let mut race_stats = StatBonuses::default();
    race_stats.accuracy = 10;
    race_stats.max_hp = 4;
    race_stats.strength = 12;
    let mut per_level = StatBonuses::default();
    per_level.accuracy = 2;
    per_level.max_hp = 3;
    let actor_template = Actor {
        race: Race { base_stats: race_stats },
        levels: vec![(Class { bonuses_per_level: per_level }, 3)],
        items: vec![sword()],
        to_equip: vec![0],
    };
    let mut actor = ActorState::new(actor_template);
    actor.compute_stats(&rules);

    // accuracy: 10 race + 2 * 3 levels + 5 sword
    assert_eq!(actor.stats.accuracy, 21);
    // max_hp: 4 race + 3 * 3 levels
    assert_eq!(actor.stats.max_hp, 13);
    assert_eq!(actor.stats.initiative, rules.base_initiative);
    assert_eq!(actor.stats.attributes.strength, 12);
    assert_eq!(actor.stats.reach, 2);
    assert!(actor.stats.melee);
    // The damage profile comes from the equipped weapon.
    assert_eq!(actor.stats.damage.min(), 2);
    assert_eq!(actor.stats.damage.max(), 6);
    assert!(actor.listeners.take_pending());
}

#[test]
fn compute_stats_falls_back_to_race_damage() {
    let rules = test_rules();
    let mut race_stats = StatBonuses::default();
    race_stats.base_damage = Some(Damage { min: 1, max: 2, kind: Some(DamageKind::Crushing) });
    let actor_template = Actor {
        race: Race { base_stats: race_stats },
        levels: Vec::new(),
        items: vec![sword()],
        to_equip: Vec::new(),  // the sword is carried but not equipped
    };
    let mut actor = ActorState::new(actor_template);
    actor.compute_stats(&rules);
    // Unarmed: the race's innate 1..2 crushing damage applies.
    assert_eq!(actor.stats.damage.min(), 1);
    assert_eq!(actor.stats.damage.max(), 2);
}

#[test]
fn equip_and_unequip_recompute_stats() {
    let rules = test_rules();
    let actor_template = Actor {
        race: Race { base_stats: StatBonuses::default() },
        levels: Vec::new(),
        items: vec![sword()],
        to_equip: Vec::new(),
    };
    let mut actor = ActorState::new(actor_template);
    actor.compute_stats(&rules);
    assert_eq!(actor.stats.accuracy, 0);

    assert!(actor.equip(&rules, 0));
    assert_eq!(actor.stats.accuracy, 5);
    assert_eq!(actor.stats.damage.max(), 6);

    assert!(actor.unequip(&rules, Slot::HeldMain));
    assert_eq!(actor.stats.accuracy, 0);
    assert_eq!(actor.stats.damage.max(), 0);

    // A second unequip of the now-empty slot fails.
    assert!(!actor.unequip(&rules, Slot::HeldMain));
    // Equipping out of range or a plain item fails.
    assert!(!actor.equip(&rules, 7));
}

#[test]
fn to_equip_indices_are_equipped_on_creation() {
    let actor_template = Actor {
        race: Race { base_stats: StatBonuses::default() },
        levels: Vec::new(),
        items: vec![Item { equippable: None }, sword()],
        to_equip: vec![1],
    };
    let actor = ActorState::new(actor_template);
    assert!(actor.inventory().get(Slot::HeldMain).is_some());
}

#[test]
fn enormous_max_hp_is_clamped_to_the_hp_type() {
    let rules = test_rules();
    let mut race_stats = StatBonuses::default();
    race_stats.max_hp = u32::MAX;
    let template = Actor {
        race: Race { base_stats: race_stats },
        levels: Vec::new(),
        items: Vec::new(),
        to_equip: Vec::new(),
    };
    let mut actor = ActorState::new(template);
    actor.compute_stats(&rules);
    assert_eq!(actor.stats.max_hp, i32::MAX as u32);
    actor.init();
    assert_eq!(actor.hp(), i32::MAX);
}

#[test]
fn overflow_ap_side_channel() {
    let mut actor = ActorState::new(bare_actor());
    assert_eq!(actor.overflow_ap(), 0);
    actor.change_overflow_ap(5);
    actor.change_overflow_ap(-2);
    assert_eq!(actor.overflow_ap(), 3);
    actor.change_overflow_ap(i32::MAX);
    assert_eq!(actor.overflow_ap(), i32::MAX);
}

#[test]
fn xp_accumulates_saturating() {
    let mut actor = ActorState::new(bare_actor());
    actor.add_xp(100);
    actor.add_xp(50);
    assert_eq!(actor.xp(), 150);
    actor.add_xp(u32::MAX);
    assert_eq!(actor.xp(), u32::MAX);
}

#[test]
fn listeners_are_notified_on_mutation() {
    let rules = test_rules();
    let mut actor = ActorState::new(bare_actor());
    actor.listeners.add(7);
    assert!(!actor.listeners.take_pending());
    actor.remove_hp(0);
    assert!(actor.listeners.take_pending());
    assert!(!actor.listeners.take_pending());
    // Every hit point or action point mutation notifies, turn events
    // included.
    actor.init();
    assert!(actor.listeners.take_pending());
    actor.init_turn(&rules);
    assert!(actor.listeners.take_pending());
    actor.end_turn();
    assert!(actor.listeners.take_pending());
}

#[test]
fn listener_registrations_add_and_remove() {
    let mut listeners = ChangeListenerList::new();
    listeners.add(1);
    listeners.add(2);
    listeners.add(1);
    listeners.remove(1);
    listeners.notify();
    assert!(listeners.take_pending());
}

#[test]
fn attribute_bonus_is_relative_to_base() {
    let attrs = AttributeList {
        strength: 14,
        dexterity: 8,
        endurance: 10,
        perception: 10,
        intellect: 10,
        wisdom: 10,
    };
    assert_eq!(attrs.bonus(Attribute::Strength, 10), 4);
    assert_eq!(attrs.bonus(Attribute::Dexterity, 10), -2);
    assert_eq!(attrs.value(Attribute::Endurance), 10);
}
