//! Castles, the per-castle spawn queue and the match economy.
//!
//! A castle owns a FIFO queue of unit kinds.  The queue's cooldown
//! timer dequeues at most one unit per period, and only while the
//! queue is non-empty; queuing an ally unit is gated on the gold
//! balance and debits exactly the unit's cost.

use std::collections::VecDeque;

use vstd::prelude::*;

use crate::attributes::{EntityId, Health};
use crate::behaviour::Vec2;
use crate::faction::Faction;
use crate::timer::{TickTimer, MAX_PERIOD_MS, MAX_TICK_MS};
use crate::units::{hurt_layers, LayerPair, UnitKind};
use crate::upgrade::{AttackCooldownUpgrade, ShieldUpgrade, SpawnCooldownReduction};

verus! {

/// Starting gold of the ally economy.
pub const INITIAL_GOLD: usize = 25;

/// Default spawn-queue cooldown, in milliseconds.
pub const SPAWN_PERIOD_MS: u64 = 2000;

/// Full health of a castle.
pub const CASTLE_HEALTH: i64 = 1000;

/// The match currency: spent on queuing units and purchasing
/// upgrades, credited on enemy kills.  Never negative by type; every
/// debit is gated on the balance covering the cost.
#[derive(Clone, Copy, Debug, Default, PartialEq, Eq, Structural)]
pub struct Gold(pub usize);

impl Gold {
    /// The balance a match starts with.
    pub fn initial() -> (r: Self)
        ensures
            r.0 == INITIAL_GOLD,
    {
        Gold(INITIAL_GOLD)
    }

    /// Credit a kill bounty, saturating at the machine limit.
    pub fn credit(&mut self, amount: usize)
        ensures
            final(self).0 == if old(self).0 + amount <= usize::MAX {
                old(self).0 + amount
            } else {
                usize::MAX as int
            },
    {
        if self.0 <= usize::MAX - amount {
            self.0 = self.0 + amount;
        } else {
            self.0 = usize::MAX;
        }
    }
}

/// Marker for castle entities.
#[derive(Clone, Copy, Debug, Default, PartialEq, Eq, Structural)]
pub struct Castle;

/// The ally castle's entity handle, once the match is set up.
#[derive(Clone, Copy, Debug, Default, PartialEq, Eq, Structural)]
pub struct AllyCastle(pub Option<EntityId>);

/// The enemy castle's entity handle, once the match is set up.
#[derive(Clone, Copy, Debug, Default, PartialEq, Eq, Structural)]
pub struct EnemyCastle(pub Option<EntityId>);

/// A request, from the player, to queue one ally unit.
#[derive(Clone, Copy, Debug, PartialEq, Eq, Structural)]
pub struct QueueAllyUnit {
    pub kind: UnitKind,
}

/// The spawn intent the queue emits when its cooldown elapses: the
/// host materializes a unit of `kind` for `faction` at the origin
/// castle's position.
#[derive(Clone, Copy, Debug, PartialEq, Eq, Structural)]
pub struct SpawnUnit {
    pub origin: EntityId,
    pub faction: Faction,
    pub kind: UnitKind,
}

/// A castle's production queue: a cooldown timer plus a FIFO of unit
/// kinds.  The queue is never reordered; at most one unit leaves per
/// timer period.
#[derive(Debug)]
pub struct SpawnQueue {
    pub timer: TickTimer,
    pub units: VecDeque<UnitKind>,
}

impl SpawnQueue {
    /// Well-formedness: the cooldown timer is a well-formed repeating
    /// timer.
    pub open spec fn wf(&self) -> bool {
        &&& self.timer.wf()
        &&& self.timer.repeating
    }
}

impl Default for SpawnQueue {
    /// An empty queue with the default cooldown.
    fn default() -> (r: Self)
        ensures
            r.wf(),
            r.units@ == Seq::<UnitKind>::empty(),
            r.timer.period_ms == SPAWN_PERIOD_MS,
            r.timer.elapsed_ms == 0,
    {
        SpawnQueue { timer: TickTimer::repeating(SPAWN_PERIOD_MS), units: VecDeque::new() }
    }
}

impl SpawnQueue {
    /// Advance the cooldown by `dt` and dequeue the front unit kind
    /// if the cooldown elapsed.  The timer only runs while the queue
    /// is non-empty, so a castle with an empty queue spawns nothing
    /// and accumulates no cooldown credit; dequeuing is strictly
    /// FIFO, exactly one unit per period.
    pub fn tick(&mut self, dt: u64) -> (r: Option<UnitKind>)
        requires
            old(self).wf(),
            dt <= MAX_TICK_MS,
        ensures
            final(self).wf(),
            final(self).timer.period_ms == old(self).timer.period_ms,
            old(self).units@.len() == 0 ==> r is None && final(self).units@ == old(self).units@
                && final(self).timer == old(self).timer,
            old(self).units@.len() > 0 ==> {
                &&& final(self).timer.elapsed_ms == (old(self).timer.elapsed_ms + dt) % (
                old(self).timer.period_ms as int)
                &&& if old(self).timer.spec_fires(dt) {
                    r == Some(old(self).units@[0]) && final(self).units@ == old(
                        self,
                    ).units@.skip(1)
                } else {
                    r is None && final(self).units@ == old(self).units@
                }
            },
    {
        if self.units.len() > 0 && self.timer.tick(dt) {
            let kind = self.units.pop_front();
            proof {
                assert(old(self).units@.subrange(1, old(self).units@.len() as int) =~= old(
                    self,
                ).units@.skip(1));
            }
            kind
        } else {
            None
        }
    }

    /// Queue one ally unit, gated on the economy: succeeds exactly
    /// when the balance covers the kind's cost, appending the kind at
    /// the tail and debiting exactly that cost; otherwise the request
    /// is dropped and the balance is left unchanged.
    pub fn queue_unit(&mut self, gold: &mut Gold, kind: UnitKind) -> (ok: bool)
        requires
            old(self).wf(),
        ensures
            final(self).wf(),
            final(self).timer == old(self).timer,
            ok == (old(gold).0 >= kind.spec_cost()),
            ok ==> final(self).units@ == old(self).units@.push(kind) && final(gold).0 == old(
                gold,
            ).0 - kind.spec_cost(),
            !ok ==> final(self).units@ == old(self).units@ && final(gold).0 == old(gold).0,
    {
        let cost = kind.cost();
        if gold.0 >= cost {
            self.units.push_back(kind);
            gold.0 = gold.0 - cost;
            true
        } else {
            false
        }
    }

    /// Append a unit kind without an economy gate (the enemy wave
    /// scheduler's path).
    pub fn push_kind(&mut self, kind: UnitKind)
        requires
            old(self).wf(),
        ensures
            final(self).wf(),
            final(self).timer == old(self).timer,
            final(self).units@ == old(self).units@.push(kind),
    {
        self.units.push_back(kind);
    }

    /// Number of units waiting in the queue.
    pub fn len(&self) -> (r: usize)
        ensures
            r == self.units@.len(),
    {
        self.units.len()
    }

    /// Whether the queue holds no units.
    pub fn is_empty(&self) -> (r: bool)
        ensures
            r == (self.units@.len() == 0),
    {
        self.units.len() == 0
    }
}

/// FIFO order: after kinds are appended to a queue holding `q0`, the
/// unit that leaves after `q0.len() + i` dequeues is exactly the
/// `i`-th appended kind — enqueue order is dequeue order, with no
/// reordering or merging.
pub proof fn lemma_spawn_queue_fifo(q0: Seq<UnitKind>, appended: Seq<UnitKind>, i: int)
    requires
        0 <= i < appended.len(),
    ensures
        (q0 + appended)[q0.len() + i] == appended[i],
{
}

/// A plain-value image of a spawn queue, for persistence: the FIFO
/// contents in order plus the cooldown timer's progress and period.
#[derive(Clone, Debug)]
pub struct SpawnQueueSnapshot {
    pub units: Vec<UnitKind>,
    pub elapsed_ms: u64,
    pub period_ms: u64,
}

impl SpawnQueueSnapshot {
    /// Well-formedness: the stored timer state is one a repeating
    /// cooldown can hold.
    pub open spec fn wf(&self) -> bool {
        0 < self.period_ms <= MAX_PERIOD_MS && self.elapsed_ms < self.period_ms
    }
}

impl SpawnQueue {
    /// Capture the queue as plain values: exact FIFO order and the
    /// cooldown's remaining progress.
    pub fn snapshot(&self) -> (s: SpawnQueueSnapshot)
        requires
            self.wf(),
        ensures
            s.wf(),
            s.units@ == self.units@,
            s.elapsed_ms == self.timer.elapsed_ms,
            s.period_ms == self.timer.period_ms,
    {
        let mut units: Vec<UnitKind> = Vec::new();
        let mut i: usize = 0;
        while i < self.units.len()
            invariant
                0 <= i <= self.units@.len(),
                units@ == self.units@.take(i as int),
            decreases self.units@.len() - i,
        {
            units.push(self.units[i]);
            proof {
                assert(self.units@.take(i as int).push(self.units@[i as int]) =~= self.units@.take(
                    i as int + 1,
                ));
            }
            i = i + 1;
        }
        proof {
            assert(self.units@.take(self.units@.len() as int) =~= self.units@);
        }
        SpawnQueueSnapshot {
            units,
            elapsed_ms: self.timer.elapsed_ms,
            period_ms: self.timer.period_ms,
        }
    }

    /// Rebuild a queue from a snapshot.  Restoring what `snapshot`
    /// captured gives back the identical queue: same FIFO order, same
    /// remaining cooldown.
    pub fn restore(s: &SpawnQueueSnapshot) -> (r: Self)
        requires
            s.wf(),
        ensures
            r.wf(),
            r.units@ == s.units@,
            r.timer.elapsed_ms == s.elapsed_ms,
            r.timer.period_ms == s.period_ms,
            r.timer.repeating,
    {
        let mut units: VecDeque<UnitKind> = VecDeque::new();
        let mut i: usize = 0;
        while i < s.units.len()
            invariant
                0 <= i <= s.units@.len(),
                units@ == s.units@.take(i as int),
            decreases s.units@.len() - i,
        {
            units.push_back(s.units[i]);
            proof {
                assert(s.units@.take(i as int).push(s.units@[i as int]) =~= s.units@.take(
                    i as int + 1,
                ));
            }
            i = i + 1;
        }
        proof {
            assert(s.units@.take(s.units@.len() as int) =~= s.units@);
        }
        SpawnQueue { timer: TickTimer::from_parts(s.elapsed_ms, s.period_ms, true), units }
    }
}

/// Round trip: snapshotting a queue and restoring the snapshot
/// preserves the exact FIFO order and the remaining cooldown time.
/// The contracts of `snapshot` and `restore` pin both sides, so the
/// reconstructed queue matches the original in contents, progress and
/// period.
pub proof fn lemma_snapshot_round_trip(q: SpawnQueue, s: SpawnQueueSnapshot, r: SpawnQueue)
    requires
        q.wf(),
        // what `snapshot` ensures of `s`
        s.units@ == q.units@,
        s.elapsed_ms == q.timer.elapsed_ms,
        s.period_ms == q.timer.period_ms,
        // what `restore` ensures of `r`
        r.units@ == s.units@,
        r.timer.elapsed_ms == s.elapsed_ms,
        r.timer.period_ms == s.period_ms,
        r.timer.repeating,
    ensures
        r.units@ == q.units@,
        r.timer == q.timer,
{
}

/// Horizontal distance of each castle from the field's center, in
/// milli-units.
pub const CASTLE_OFFSET_X: i64 = 640_000;

/// Radius of a castle's physics collider, in milli-units.
pub const CASTLE_COLLIDER_RADIUS: i64 = 128_000;

/// Radius of a castle's hurt box, in milli-units.
pub const CASTLE_HURT_BOX_RADIUS: i64 = 127_000;

/// What setting up one castle at match start amounts to: the host
/// creates the entity with these attributes.  Both castles are
/// immortal, hold full castle health, an empty spawn queue at the
/// default cooldown, and fresh upgrades; the ally castle stands on
/// the left, the enemy castle on the right.
#[derive(Debug)]
pub struct CastleConfig {
    pub faction: Faction,
    pub position: Vec2,
    pub health: Health,
    pub immortal: bool,
    pub collider_radius: i64,
    pub hurt_box_radius: i64,
    pub hurt_box_layers: LayerPair,
    pub spawn_queue: SpawnQueue,
    pub spawn_cooldown: SpawnCooldownReduction,
    pub shield: ShieldUpgrade,
    pub attack_cooldown: AttackCooldownUpgrade,
}

/// Set up one castle for `faction` (see `CastleConfig`).
pub fn castle_config(faction: Faction) -> (r: CastleConfig)
    ensures
        r.faction == faction,
        r.position.x == (if faction is Ally {
            -(CASTLE_OFFSET_X as int)
        } else {
            CASTLE_OFFSET_X as int
        }),
        r.position.y == 0,
        r.position.wf(),
        r.health == (Health { current: CASTLE_HEALTH, max: CASTLE_HEALTH }),
        r.health.wf(),
        r.immortal,
        r.collider_radius == CASTLE_COLLIDER_RADIUS,
        r.hurt_box_radius == CASTLE_HURT_BOX_RADIUS,
        r.hurt_box_layers == crate::units::spec_hurt_layers(faction),
        r.spawn_queue.wf(),
        r.spawn_queue.units@ == Seq::<UnitKind>::empty(),
        r.spawn_queue.timer.period_ms == SPAWN_PERIOD_MS,
        r.spawn_queue.timer.elapsed_ms == 0,
        r.spawn_cooldown.spec_level() == 0,
        r.shield.spec_level() == 0,
        r.attack_cooldown.spec_level() == 0,
{
    let x: i64 = match faction {
        Faction::Ally => -CASTLE_OFFSET_X,
        Faction::Enemy => CASTLE_OFFSET_X,
    };
    CastleConfig {
        faction,
        position: Vec2 { x, y: 0 },
        health: Health::new(CASTLE_HEALTH),
        immortal: true,
        collider_radius: CASTLE_COLLIDER_RADIUS,
        hurt_box_radius: CASTLE_HURT_BOX_RADIUS,
        hurt_box_layers: hurt_layers(faction),
        spawn_queue: SpawnQueue::default(),
        spawn_cooldown: SpawnCooldownReduction { level: 0 },
        shield: ShieldUpgrade { level: 0 },
        attack_cooldown: AttackCooldownUpgrade { level: 0 },
    }
}

/// The match-level states the host drives.
#[derive(Clone, Copy, Debug, PartialEq, Eq, Structural)]
pub enum GameState {
    Loading,
    Playing,
    Menu,
    GameOver,
}

/// The end-of-game check, run once per tick: the match ends exactly
/// when, during play, the ally castle's health has reached zero.
pub fn game_over(state: GameState, ally_castle_health: Option<&Health>) -> (r: GameState)
    ensures
        r == (if state is Playing && (ally_castle_health matches Some(h) && h.current == 0) {
            GameState::GameOver
        } else {
            state
        }),
{
    match ally_castle_health {
        Some(h) => {
            if matches!(state, GameState::Playing) && h.current == 0 {
                GameState::GameOver
            } else {
                state
            }
        },
        None => state,
    }
}

} // verus!
