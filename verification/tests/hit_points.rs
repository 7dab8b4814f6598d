use initiative_tracker::model::{
    ChallengeRating, Creature, CreatureProperties, DamageOutcome, Stats,
};

fn player(max_hp: u32, current_hp: u32) -> Creature {
    Creature::new_player("Dave", max_hp, 10, Some(current_hp), None, None)
}

#[test]
fn new_takes_a_current_hp_within_range() {
    let creature = Creature::new_player("Bob", 40, 12, Some(25), None, None);
    assert_eq!(creature.hp(), 25);
    assert_eq!(creature.max_hp(), 40);
    assert!(!creature.is_dead());
}

#[test]
fn new_cuts_a_current_hp_down_to_the_maximum() {
    let creature = Creature::new_player("Carol", 40, 12, Some(41), None, None);
    assert_eq!(creature.hp(), 40);
    let creature = Creature::new_player("Carol", 40, 12, Some(u32::MAX), None, None);
    assert_eq!(creature.hp(), 40);
}

#[test]
fn new_without_hit_points_starts_dead() {
    let creature = Creature::new_player("Grace", 12, 10, Some(0), None, None);
    assert_eq!(creature.hp(), 0);
    assert!(creature.is_dead());
    assert!(!creature.is_alive());
}

#[test]
fn new_starts_without_conditions_and_initiative() {
    let creature = Creature::new_player("Heidi", 12, 10, None, None, None);
    assert!(creature.get_statuses().is_empty());
    assert!(!creature.has_initative());
}

#[test]
fn new_player_keeps_level_and_stats() {
    let stats = Stats::new(8, 14, 12, 10, 13, 16);
    let creature = Creature::new_player("Ivan", 33, 17, None, Some(stats), Some(5));
    assert_eq!(creature.stats(), stats);
    assert_eq!(creature.props().stats, stats);
    assert_eq!(creature.props().name, "Ivan");
    assert_eq!(creature.props().ac, 17);
    match creature {
        Creature::Player { level, .. } => assert_eq!(level, 5),
        Creature::Monster { .. } => panic!("a player was made"),
    }
}

#[test]
fn new_player_is_of_level_one_by_default() {
    match Creature::new_player("Judy", 9, 11, None, None, None) {
        Creature::Player { level, .. } => assert_eq!(level, 1),
        Creature::Monster { .. } => panic!("a player was made"),
    }
}

#[test]
fn new_monster_keeps_its_challenge_rating() {
    let quarter = ChallengeRating { bits: 0.25f64.to_bits() };
    let goblin = Creature::new_monster("Goblin", 7, 15, None, None, Some(quarter));
    assert_eq!(goblin.name(), "Goblin");
    assert_eq!(goblin.hp(), 7);
    assert_eq!(goblin.max_hp(), 7);
    assert_eq!(goblin.ac(), 15);
    assert_eq!(goblin.stats(), Stats::default());
    match goblin {
        Creature::Monster { cr, .. } => assert_eq!(f64::from_bits(cr.bits), 0.25),
        Creature::Player { .. } => panic!("a monster was made"),
    }
}

#[test]
fn new_monster_has_rating_zero_by_default() {
    match Creature::new_monster("Rat", 1, 10, Some(1), None, None) {
        Creature::Monster { cr, .. } => assert_eq!(f64::from_bits(cr.bits), 0.0),
        Creature::Player { .. } => panic!("a monster was made"),
    }
}

#[test]
fn heal_adds_up_to_the_maximum() {
    let mut creature = player(20, 10);
    creature.heal(5);
    assert_eq!(creature.hp(), 15);
    creature.heal(5);
    assert_eq!(creature.hp(), 20);
    creature.heal(1);
    assert_eq!(creature.hp(), 20);
}

#[test]
fn heal_never_exceeds_the_maximum() {
    for amount in [0, 1, 9, 10, 11, 1000, u32::MAX - 1, u32::MAX] {
        let mut creature = player(20, 10);
        creature.heal(amount);
        assert!(creature.hp() <= creature.max_hp(), "amount {amount}");
        assert_eq!(creature.hp(), amount.min(10) + 10, "amount {amount}");
        assert_eq!(creature.max_hp(), 20);
    }
}

#[test]
fn heal_by_nothing_changes_nothing() {
    let mut creature = player(20, 10);
    creature.heal(0);
    assert_eq!(creature.hp(), 10);

    let mut dead = player(20, 0);
    dead.heal(0);
    assert_eq!(dead.hp(), 0);
    assert!(dead.is_dead());
}

#[test]
fn heal_brings_the_dead_back() {
    let mut creature = player(20, 10);
    assert_eq!(creature.damage(30), DamageOutcome::Died);
    assert!(creature.is_dead());
    creature.heal(1);
    assert!(!creature.is_dead());
    assert!(creature.is_alive());
    assert_eq!(creature.hp(), 1);
}

#[test]
fn heal_lifts_the_downed() {
    let mut creature = player(20, 10);
    assert_eq!(creature.damage(10), DamageOutcome::Downed);
    assert!(!creature.is_dead());
    creature.heal(7);
    assert!(!creature.is_dead());
    assert_eq!(creature.hp(), 7);
}

#[test]
fn damage_below_the_hit_points_is_survived() {
    for amount in 0..15u32 {
        let mut creature = player(20, 15);
        assert_eq!(creature.damage(amount), DamageOutcome::Survived);
        assert_eq!(creature.hp(), 15 - amount);
        assert!(!creature.is_dead());
    }
}

#[test]
fn damage_to_zero_or_a_little_below_downs() {
    // hp 15, max 20: a delta in (-20, 0] is an amount in [15, 35).
    for amount in 15..35u32 {
        let mut creature = player(20, 15);
        assert_eq!(creature.damage(amount), DamageOutcome::Downed, "amount {amount}");
        assert_eq!(creature.hp(), 0);
        assert!(!creature.is_dead());
        assert!(creature.is_alive());
    }
}

#[test]
fn damage_far_below_zero_kills() {
    for amount in [35, 36, 100, u32::MAX] {
        let mut creature = player(20, 15);
        assert_eq!(creature.damage(amount), DamageOutcome::Died, "amount {amount}");
        assert_eq!(creature.hp(), 0);
        assert!(creature.is_dead());
    }
}

#[test]
fn damage_is_safe_at_the_limits_of_the_numbers() {
    let mut creature = player(u32::MAX, u32::MAX);
    assert_eq!(creature.damage(u32::MAX - 1), DamageOutcome::Survived);
    assert_eq!(creature.hp(), 1);
    assert_eq!(creature.damage(u32::MAX), DamageOutcome::Downed);
    assert_eq!(creature.hp(), 0);
    assert!(!creature.is_dead());
    assert_eq!(creature.damage(u32::MAX), DamageOutcome::Died);
    assert!(creature.is_dead());
    creature.heal(u32::MAX);
    assert_eq!(creature.hp(), u32::MAX);
    creature.heal(u32::MAX);
    assert_eq!(creature.hp(), u32::MAX);
}

#[test]
fn death_lasts_until_a_heal() {
    let mut creature = player(20, 10);
    assert_eq!(creature.damage(30), DamageOutcome::Died);
    for amount in [0, 1, 19, 20, 500] {
        creature.damage(amount);
        assert_eq!(creature.hp(), 0);
        assert!(creature.is_dead());
    }
    creature.heal(3);
    assert!(!creature.is_dead());
    assert_eq!(creature.hp(), 3);
}

#[test]
fn a_light_hit_on_the_dead_reports_downed_and_leaves_them_dead() {
    let mut creature = player(20, 10);
    assert_eq!(creature.damage(30), DamageOutcome::Died);
    assert_eq!(creature.damage(5), DamageOutcome::Downed);
    assert!(creature.is_dead());
    assert_eq!(creature.damage(20), DamageOutcome::Died);
    assert!(creature.is_dead());
}

#[test]
fn the_rule_is_the_same_for_monsters() {
    let mut monster = Creature::new_monster("Ogre", 20, 11, Some(10), None, None);
    monster.heal(5);
    assert_eq!(monster.hp(), 15);
    monster.heal(10);
    assert_eq!(monster.hp(), 20);
    assert_eq!(monster.damage(5), DamageOutcome::Survived);
    assert_eq!(monster.hp(), 15);
    assert_eq!(monster.damage(30), DamageOutcome::Downed);
    assert_eq!(monster.hp(), 0);
    assert!(!monster.is_dead());
    assert_eq!(monster.damage(20), DamageOutcome::Died);
    assert!(monster.is_dead());
}

#[test]
fn play_leaves_the_sheet_alone() {
    let stats = Stats::new(8, 14, 12, 10, 13, 16);
    let mut creature = Creature::new_player("Mallory", 20, 13, Some(10), Some(stats), Some(3));
    creature.heal(4);
    creature.damage(50);
    creature.heal(2);
    assert_eq!(creature.name(), "Mallory");
    assert_eq!(creature.max_hp(), 20);
    assert_eq!(creature.ac(), 13);
    assert_eq!(creature.stats(), stats);
    match creature {
        Creature::Player { level, .. } => assert_eq!(level, 3),
        Creature::Monster { .. } => panic!("a player was made"),
    }
}

#[test]
fn a_clone_is_equal_and_independent() {
    let mut first = player(20, 10);
    first.set_initiative(12);
    let mut copy = first.clone();
    assert_eq!(copy.hp(), 10);
    assert_eq!(copy.max_hp(), 20);
    assert_eq!(copy.name(), "Dave");
    assert_eq!(copy.get_initiative(), 12);
    copy.damage(4);
    assert_eq!(copy.hp(), 6);
    assert_eq!(first.hp(), 10);
}

#[test]
fn a_record_is_made_as_a_combatant_is() {
    let props = CreatureProperties::new("Niaj".to_string(), 25, 40, 12, Stats::default());
    assert_eq!(props.name, "Niaj");
    assert_eq!(props.hp, 25);
    assert_eq!(props.max_hp, 40);
    assert_eq!(props.ac, 12);
    assert!(!props.is_dead);
    assert!(props.statuses.is_empty());
    assert_eq!(props.initiative, None);
    assert_eq!(props.stats, Stats::default());

    let props = CreatureProperties::new("Olivia".to_string(), 41, 40, 12, Stats::default());
    assert_eq!(props.hp, 40);
    assert!(!props.is_dead);

    let props = CreatureProperties::new("Peggy".to_string(), 0, 40, 12, Stats::default());
    assert_eq!(props.hp, 0);
    assert!(props.is_dead);

    let copy = props.clone();
    assert_eq!(copy.name, "Peggy");
    assert_eq!(copy.hp, 0);
    assert_eq!(copy.max_hp, 40);
    assert!(copy.is_dead);
}
