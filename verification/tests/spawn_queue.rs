use castle_siege::castle::{Gold, SpawnQueue, INITIAL_GOLD, SPAWN_PERIOD_MS};
use castle_siege::units::UnitKind;

#[test]
fn fresh_queue_is_empty_with_default_cooldown() {
    let q = SpawnQueue::default();
    assert!(q.is_empty());
    assert_eq!(q.timer.period_ms, SPAWN_PERIOD_MS);
    assert_eq!(q.timer.elapsed_ms, 0);
}

/// FIFO order: kinds queued in order leave in the same order, one per
/// cooldown period.
#[test]
fn dequeue_order_is_fifo() {
    let mut q = SpawnQueue::default();
    q.push_kind(UnitKind::Soldier);
    q.push_kind(UnitKind::Soldier);
    q.push_kind(UnitKind::Soldier);
    assert_eq!(q.len(), 3);
    let mut dequeued = Vec::new();
    for _ in 0..3 {
        let popped = q.tick(SPAWN_PERIOD_MS);
        assert!(popped.is_some());
        dequeued.push(popped.unwrap());
    }
    assert!(q.is_empty());
    assert_eq!(dequeued, vec![UnitKind::Soldier, UnitKind::Soldier, UnitKind::Soldier]);
}

#[test]
fn at_most_one_unit_leaves_per_period() {
    let mut q = SpawnQueue::default();
    for _ in 0..5 {
        q.push_kind(UnitKind::Soldier);
    }
    // one huge delta still releases only one unit on this tick
    assert!(q.tick(10 * SPAWN_PERIOD_MS).is_some());
    assert_eq!(q.len(), 4);
}

#[test]
fn nothing_leaves_before_the_cooldown_elapses() {
    let mut q = SpawnQueue::default();
    q.push_kind(UnitKind::Soldier);
    assert!(q.tick(SPAWN_PERIOD_MS - 1).is_none());
    assert_eq!(q.len(), 1);
    assert!(q.tick(1).is_some());
    assert!(q.is_empty());
}

#[test]
fn empty_queue_accumulates_no_cooldown() {
    let mut q = SpawnQueue::default();
    // the timer is frozen while the queue is empty...
    assert!(q.tick(SPAWN_PERIOD_MS).is_none());
    assert_eq!(q.timer.elapsed_ms, 0);
    // ...so a fresh unit still waits a full period
    q.push_kind(UnitKind::Soldier);
    assert!(q.tick(SPAWN_PERIOD_MS - 1).is_none());
    assert!(q.tick(1).is_some());
}

/// Queuing fails and leaves the balance unchanged when gold is short;
/// otherwise it debits exactly the kind's cost.
#[test]
fn queue_unit_gates_on_gold() {
    let mut q = SpawnQueue::default();
    let mut gold = Gold(0);
    assert!(!q.queue_unit(&mut gold, UnitKind::Soldier));
    assert_eq!(gold.0, 0);
    assert!(q.is_empty());

    gold.0 = 3;
    assert!(q.queue_unit(&mut gold, UnitKind::Soldier));
    assert_eq!(gold.0, 3 - UnitKind::Soldier.cost());
    assert_eq!(q.len(), 1);
}

/// The initial ally balance pays for exactly twenty-five soldiers:
/// the twenty-sixth request fails with the balance at zero.
#[test]
fn initial_gold_pays_for_twenty_five_soldiers() {
    let mut q = SpawnQueue::default();
    let mut gold = Gold::initial();
    assert_eq!(gold.0, INITIAL_GOLD);
    assert_eq!(UnitKind::Soldier.cost(), 1);
    for _ in 0..25 {
        assert!(q.queue_unit(&mut gold, UnitKind::Soldier));
    }
    assert_eq!(gold.0, 0);
    assert_eq!(q.len(), 25);
    assert!(!q.queue_unit(&mut gold, UnitKind::Soldier));
    assert_eq!(gold.0, 0);
    assert_eq!(q.len(), 25);
}

/// Snapshotting and restoring a queue preserves the exact FIFO order
/// and the remaining cooldown time.
#[test]
fn snapshot_round_trip_preserves_queue() {
    let mut q = SpawnQueue::default();
    q.push_kind(UnitKind::Soldier);
    q.push_kind(UnitKind::Soldier);
    // advance partway into the cooldown
    let popped = q.tick(700);
    assert!(popped.is_none());
    assert_eq!(q.timer.elapsed_ms, 700);

    let snapshot = q.snapshot();
    let restored = SpawnQueue::restore(&snapshot);
    assert_eq!(restored.len(), q.len());
    assert_eq!(restored.timer.elapsed_ms, q.timer.elapsed_ms);
    assert_eq!(restored.timer.period_ms, q.timer.period_ms);

    // both queues continue identically
    let mut original = q;
    let mut copy = restored;
    let a = original.tick(SPAWN_PERIOD_MS - 700);
    let b = copy.tick(SPAWN_PERIOD_MS - 700);
    assert_eq!(a, b);
    assert_eq!(a, Some(UnitKind::Soldier));
    assert_eq!(original.len(), copy.len());
}

#[test]
fn gold_credit_adds_bounty() {
    let mut gold = Gold(10);
    gold.credit(2);
    assert_eq!(gold.0, 12);
    let mut near_max = Gold(usize::MAX - 1);
    near_max.credit(5);
    assert_eq!(near_max.0, usize::MAX);
}
