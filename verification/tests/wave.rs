use castle_siege::castle::SpawnQueue;
use castle_siege::units::UnitKind;
use castle_siege::upgrade::{AttackCooldownUpgrade, ShieldUpgrade, SpawnCooldownReduction};
use castle_siege::wave::{Wave, UNITS_PER_LEVEL, WAVE_PERIOD_MS};

fn fresh_state() -> (Wave, SpawnQueue, SpawnCooldownReduction, ShieldUpgrade, AttackCooldownUpgrade)
{
    (
        Wave::default(),
        SpawnQueue::default(),
        SpawnCooldownReduction::default(),
        ShieldUpgrade::default(),
        AttackCooldownUpgrade::default(),
    )
}

/// At wave level one, after exactly the wave period with an empty
/// queue, the enemy queue receives the level-one batch of soldiers
/// and the level becomes two (which also grants the enemy's upgrades
/// their free level-ups).
#[test]
fn first_wave_releases_after_exactly_five_seconds() {
    let (mut wave, mut queue, mut scr, mut shield, mut ac) = fresh_state();
    assert_eq!(wave.level, 1);
    assert_eq!(wave.timer.period_ms, WAVE_PERIOD_MS);

    assert!(!wave.tick(WAVE_PERIOD_MS - 1, &mut queue, &mut scr, &mut shield, &mut ac));
    assert!(queue.is_empty());
    assert_eq!(wave.level, 1);

    assert!(wave.tick(1, &mut queue, &mut scr, &mut shield, &mut ac));
    assert_eq!(queue.len() as u32, UNITS_PER_LEVEL);
    assert_eq!(wave.level, 2);
    // level two is even: each upgrade was granted two free level-ups
    assert_eq!(scr.level(), 2);
    assert_eq!(shield.level(), 2);
    assert_eq!(ac.level(), 2);
}

#[test]
fn waves_escalate_with_the_level() {
    let (mut wave, mut queue, mut scr, mut shield, mut ac) = fresh_state();
    assert!(wave.tick(WAVE_PERIOD_MS, &mut queue, &mut scr, &mut shield, &mut ac));
    assert_eq!(queue.len() as u32, UNITS_PER_LEVEL);

    // drain the queue: the next wave waits for it to be empty
    while !queue.is_empty() {
        queue.tick(2000);
    }
    assert!(wave.tick(WAVE_PERIOD_MS, &mut queue, &mut scr, &mut shield, &mut ac));
    assert_eq!(queue.len() as u32, 2 * UNITS_PER_LEVEL);
    assert_eq!(wave.level, 3);
    // level three is odd: no further free level-ups
    assert_eq!(scr.level(), 2);
}

#[test]
fn wave_waits_while_the_queue_is_nonempty() {
    let (mut wave, mut queue, mut scr, mut shield, mut ac) = fresh_state();
    queue.push_kind(UnitKind::Soldier);
    assert!(!wave.tick(WAVE_PERIOD_MS, &mut queue, &mut scr, &mut shield, &mut ac));
    assert_eq!(queue.len(), 1);
    assert_eq!(wave.level, 1);
    // the wave timer did not even advance
    assert_eq!(wave.timer.elapsed_ms, 0);
}

#[test]
fn batch_contains_only_soldiers() {
    let (mut wave, mut queue, mut scr, mut shield, mut ac) = fresh_state();
    assert!(wave.tick(WAVE_PERIOD_MS, &mut queue, &mut scr, &mut shield, &mut ac));
    while let Some(kind) = queue.tick(2000) {
        assert_eq!(kind, UnitKind::Soldier);
    }
}
