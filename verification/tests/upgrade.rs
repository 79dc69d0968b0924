use castle_siege::castle::Gold;
use castle_siege::upgrade::{
    purchase_attack_cooldown_upgrade, purchase_shield_upgrade, purchase_spawn_cooldown_reduction,
    spawn_queue_period_ms, AttackCooldownUpgrade, ShieldUpgrade, SpawnCooldownReduction,
    BASE_SPAWN_PERIOD_MS, MAX_LEVEL,
};

#[test]
fn level_up_increments_below_the_cap() {
    let mut u = SpawnCooldownReduction::default();
    assert_eq!(u.level(), 0);
    assert!(u.level_up());
    assert_eq!(u.level(), 1);
}

/// At the level cap, leveling up fails and the level is unchanged.
#[test]
fn level_up_fails_at_max_level() {
    let mut u = ShieldUpgrade::default();
    for expected in 1..=MAX_LEVEL {
        assert!(u.level_up());
        assert_eq!(u.level(), expected);
    }
    assert_eq!(u.level(), MAX_LEVEL);
    assert!(!u.level_up());
    assert_eq!(u.level(), MAX_LEVEL);
}

#[test]
fn costs_step_up_with_the_level() {
    let mut scr = SpawnCooldownReduction::default();
    assert_eq!(scr.cost(), 5);
    scr.level_up();
    assert_eq!(scr.cost(), 10);

    let mut shield = ShieldUpgrade::default();
    assert_eq!(shield.cost(), 3);
    shield.level_up();
    assert_eq!(shield.cost(), 6);

    let mut ac = AttackCooldownUpgrade::default();
    assert_eq!(ac.cost(), 3);
    ac.level_up();
    assert_eq!(ac.cost(), 6);
}

#[test]
fn effect_magnitudes_are_linear_in_the_level() {
    let mut scr = SpawnCooldownReduction::default();
    assert_eq!(scr.get(), 0);
    scr.level_up();
    scr.level_up();
    // two levels take ten percent off: a hundred per-mille
    assert_eq!(scr.get(), 100);

    let mut shield = ShieldUpgrade::default();
    shield.level_up();
    // one level grants twelve and a half hit points: 125 tenths
    assert_eq!(shield.get(), 125);

    let mut ac = AttackCooldownUpgrade::default();
    ac.level_up();
    ac.level_up();
    // two levels take fifteen percent off: 150 per-mille
    assert_eq!(ac.get(), 150);
}

#[test]
fn spawn_period_shrinks_with_the_reduction_level() {
    let mut scr = SpawnCooldownReduction::default();
    assert_eq!(spawn_queue_period_ms(&scr), BASE_SPAWN_PERIOD_MS);
    scr.level_up();
    assert_eq!(spawn_queue_period_ms(&scr), 1900);
    for _ in 0..9 {
        scr.level_up();
    }
    assert_eq!(scr.level(), MAX_LEVEL);
    assert_eq!(spawn_queue_period_ms(&scr), 1000);
}

#[test]
fn purchase_debits_exactly_the_cost() {
    let mut scr = SpawnCooldownReduction::default();
    let mut gold = Gold(12);
    assert!(purchase_spawn_cooldown_reduction(&mut scr, &mut gold));
    assert_eq!(scr.level(), 1);
    assert_eq!(gold.0, 7);
}

#[test]
fn purchase_fails_without_enough_gold() {
    let mut shield = ShieldUpgrade::default();
    let mut gold = Gold(2);
    assert!(!purchase_shield_upgrade(&mut shield, &mut gold));
    assert_eq!(shield.level(), 0);
    assert_eq!(gold.0, 2);
}

#[test]
fn purchase_fails_at_max_level_without_debiting() {
    let mut ac = AttackCooldownUpgrade::default();
    while ac.level() < MAX_LEVEL {
        ac.level_up();
    }
    let mut gold = Gold(1000);
    assert!(!purchase_attack_cooldown_upgrade(&mut ac, &mut gold));
    assert_eq!(ac.level(), MAX_LEVEL);
    assert_eq!(gold.0, 1000);
}
