//! Unit kinds and the lifecycle of a freshly spawned unit: the spawn
//! lane, the spawn-protection window, the combat fit-out a unit gets
//! when protection ends, and the attack cooldown that re-arms its hit
//! box.

use vstd::prelude::*;

use crate::attributes::{EntityId, Health};
use crate::behaviour::{Behaviour, DefaultBehaviour, Vec2};
use crate::faction::{Faction, SensorLayers};
use crate::hit_detection::{HitBox, HitBoxKind};
use crate::timer::{TickTimer, MAX_TICK_MS};

verus! {

/// Full health of a freshly spawned unit.
pub const UNIT_HEALTH: i64 = 100;

/// Damage a unit's hit box deals per strike.
pub const UNIT_DAMAGE: i64 = 10;

/// Period of the attack cooldown that clears a unit's hit box, in
/// milliseconds.
pub const ATTACK_COOLDOWN_MS: u64 = 1000;

/// Length of the spawn-protection window, in milliseconds.
pub const SPAWN_PROTECTION_MS: u64 = 100;

/// Radius of a unit's physics collider, in milli-units.
pub const UNIT_COLLIDER_RADIUS: i64 = 10_000;

/// Radius of a unit's hurt box, in milli-units.
pub const HURT_BOX_RADIUS: i64 = 9_000;

/// Radius of a unit's hit box, in milli-units.
pub const HIT_BOX_RADIUS: i64 = 12_000;

/// Radius of a unit's target-acquisition sensor, in milli-units.
pub const ENEMY_FINDER_RADIUS: i64 = 60_000;

/// Spacing between successive spawn lanes, in milli-units.
pub const LANE_STEP: u64 = 60_000;

/// The lane counter wraps at this value, in milli-units.
pub const LANE_WRAP: u64 = 360_000;

/// Half the lane band: lanes center on the horizontal axis.
pub const LANE_HALF_BAND: i64 = 180_000;

/// The kinds of unit a castle can produce.
#[derive(Clone, Copy, Debug, PartialEq, Eq, Structural)]
pub enum UnitKind {
    Soldier,
}

impl UnitKind {
    /// What queuing one unit of this kind costs the owning economy.
    pub open spec fn spec_cost(&self) -> usize {
        match self {
            UnitKind::Soldier => 1,
        }
    }

    /// What queuing one unit of this kind costs the owning economy.
    pub fn cost(&self) -> (r: usize)
        ensures
            r == self.spec_cost(),
    {
        match self {
            UnitKind::Soldier => 1,
        }
    }
}

/// A sensor's collision-layer pairing: the layer it belongs to and
/// the single layer it collides with.
#[derive(Clone, Copy, Debug, PartialEq, Eq, Structural)]
pub struct LayerPair {
    pub memberships: SensorLayers,
    pub filters: SensorLayers,
}

/// The hurt-box pairing for `faction`: its own hurt layer, filtered
/// to the opposing faction's hit layer, so friendly attacks never
/// reach it.
pub open spec fn spec_hurt_layers(faction: Faction) -> LayerPair {
    match faction {
        Faction::Ally => LayerPair {
            memberships: SensorLayers::AllyHurt,
            filters: SensorLayers::EnemyHit,
        },
        Faction::Enemy => LayerPair {
            memberships: SensorLayers::EnemyHurt,
            filters: SensorLayers::AllyHit,
        },
    }
}

/// The hit-box pairing for `faction`: its own hit layer, filtered to
/// the opposing faction's hurt layer.
pub open spec fn spec_hit_layers(faction: Faction) -> LayerPair {
    match faction {
        Faction::Ally => LayerPair {
            memberships: SensorLayers::AllyHit,
            filters: SensorLayers::EnemyHurt,
        },
        Faction::Enemy => LayerPair {
            memberships: SensorLayers::EnemyHit,
            filters: SensorLayers::AllyHurt,
        },
    }
}

/// The hurt-box pairing for `faction` (see `spec_hurt_layers`).
pub fn hurt_layers(faction: Faction) -> (r: LayerPair)
    ensures
        r == spec_hurt_layers(faction),
{
    LayerPair { memberships: faction.hurt_layer(), filters: faction.opposite().hit_layer() }
}

/// The hit-box pairing for `faction` (see `spec_hit_layers`).
pub fn hit_layers(faction: Faction) -> (r: LayerPair)
    ensures
        r == spec_hit_layers(faction),
{
    LayerPair { memberships: faction.hit_layer(), filters: faction.opposite().hurt_layer() }
}

/// The spawn-protection window: a one-shot timer during which the
/// unit has no hit/hurt boxes, cannot be targeted, and does not
/// collide with attack sensors.
#[derive(Clone, Copy, Debug, PartialEq, Eq, Structural)]
pub struct SpawnProtection(pub TickTimer);

impl SpawnProtection {
    /// Well-formedness: a one-shot timer in a valid state.
    pub open spec fn wf(&self) -> bool {
        self.0.wf() && !self.0.repeating
    }
}

impl Default for SpawnProtection {
    /// A fresh protection window of the standard length.
    fn default() -> (r: Self)
        ensures
            r.wf(),
            r.0.period_ms == SPAWN_PROTECTION_MS,
            r.0.elapsed_ms == 0,
    {
        SpawnProtection(TickTimer::once(SPAWN_PROTECTION_MS))
    }
}

/// What materializing one queued unit amounts to: the host creates
/// the entity at the origin castle's position with these attributes.
/// The unit starts protected, seeking its rally point on the central
/// lane, and is fitted for combat only when protection ends.
#[derive(Clone, Copy, Debug, PartialEq, Eq, Structural)]
pub struct UnitSpawnConfig {
    pub kind: UnitKind,
    pub faction: Faction,
    pub behaviour: Behaviour,
    pub health: Health,
    pub collider_radius: i64,
    pub protection: SpawnProtection,
}

/// Materialize one spawn intent.  `lane_y` is the rolling lane
/// counter (milli-units); each spawn advances it by one lane step,
/// wrapping, so successive units do not overlap exactly.  Returns the
/// spawn configuration and the advanced counter: the unit starts at
/// full health, protected, seeking the rally point on the advanced
/// lane.
pub fn spawn_unit_config(kind: UnitKind, faction: Faction, lane_y: u64) -> (r: (
    UnitSpawnConfig,
    u64,
))
    requires
        lane_y < LANE_WRAP,
    ensures
        r.1 == (lane_y + LANE_STEP) % (LANE_WRAP as int),
        r.0.kind == kind,
        r.0.faction == faction,
        r.0.behaviour == Behaviour::MoveToPoint(
            Vec2 { x: 0, y: (r.1 - LANE_HALF_BAND) as i64 },
        ),
        r.0.behaviour.wf(),
        r.0.health == (Health { current: UNIT_HEALTH, max: UNIT_HEALTH }),
        r.0.health.wf(),
        r.0.collider_radius == UNIT_COLLIDER_RADIUS,
        r.0.protection.wf(),
        r.0.protection.0.period_ms == SPAWN_PROTECTION_MS,
        r.0.protection.0.elapsed_ms == 0,
{
    let lane: u64 = (lane_y + LANE_STEP) % LANE_WRAP;
    let config = UnitSpawnConfig {
        kind,
        faction,
        behaviour: Behaviour::MoveToPoint(Vec2 { x: 0, y: (lane as i64) - LANE_HALF_BAND }),
        health: Health::new(UNIT_HEALTH),
        collider_radius: UNIT_COLLIDER_RADIUS,
        protection: SpawnProtection::default(),
    };
    (config, lane)
}

/// The attack cooldown that re-arms a unit's `Once` hit box: each
/// time it elapses, the struck-set is cleared, permitting the next
/// damage tick.
#[derive(Clone, Copy, Debug, PartialEq, Eq, Structural)]
pub struct AttackCooldown {
    pub timer: TickTimer,
}

impl AttackCooldown {
    /// Well-formedness: a repeating timer in a valid state.
    pub open spec fn wf(&self) -> bool {
        self.timer.wf() && self.timer.repeating
    }

    /// A fresh cooldown of the standard period.
    pub fn new() -> (r: Self)
        ensures
            r.wf(),
            r.timer.period_ms == ATTACK_COOLDOWN_MS,
            r.timer.elapsed_ms == 0,
    {
        AttackCooldown { timer: TickTimer::repeating(ATTACK_COOLDOWN_MS) }
    }
}

/// Advance a unit's attack cooldown; on the tick where it elapses,
/// clear the paired hit box's struck-set (a `Persistent` box is
/// unaffected by clearing).
pub fn attack_cooldown_step(cooldown: &mut AttackCooldown, hitbox: &mut HitBox, dt: u64) -> (fired:
    bool)
    requires
        old(cooldown).wf(),
        old(hitbox).wf(),
        dt <= MAX_TICK_MS,
    ensures
        final(cooldown).wf(),
        final(hitbox).wf(),
        fired == old(cooldown).timer.spec_fires(dt),
        final(cooldown).timer.period_ms == old(cooldown).timer.period_ms,
        final(cooldown).timer.elapsed_ms == (old(cooldown).timer.elapsed_ms + dt) % (
        old(cooldown).timer.period_ms as int),
        final(hitbox).damage == old(hitbox).damage,
        !fired ==> final(hitbox).spec_struck() == old(hitbox).spec_struck() && (
        final(hitbox).kind is Persistent <==> old(hitbox).kind is Persistent),
        fired ==> final(hitbox).spec_struck() == Seq::<EntityId>::empty() && (
        final(hitbox).kind is Persistent <==> old(hitbox).kind is Persistent),
{
    if cooldown.timer.tick(dt) {
        hitbox.clear();
        true
    } else {
        false
    }
}

/// The combat fit-out a unit receives the moment its spawn
/// protection ends: its standing orders and the three child sensors
/// (hurt box, cooldown-gated hit box, target finder).
#[derive(Debug)]
pub struct UnitActivation {
    /// Chase the opposing castle.
    pub behaviour: Behaviour,
    /// The same standing order, saved as the fallback for lost
    /// targets.
    pub default_behaviour: DefaultBehaviour,
    pub hurt_box_radius: i64,
    pub hurt_box_layers: LayerPair,
    pub hit_box: HitBox,
    pub hit_box_radius: i64,
    pub hit_box_layers: LayerPair,
    pub attack_cooldown: AttackCooldown,
    pub enemy_finder_radius: i64,
    pub enemy_finder_layers: LayerPair,
}

/// Advance a unit's spawn protection.  The unit activates on a tick
/// where the window has fully elapsed and the unit overlaps nothing
/// (so it is never fitted out mid-crowd); until then nothing is
/// returned.  On activation the unit's orders become chasing the
/// opposing faction's castle — saved as its default behaviour too —
/// and it receives its hurt box, its `Once` hit box (empty struck-set,
/// fresh attack cooldown) and its target finder, each on the layer
/// pairing of its faction.
pub fn spawn_protection_step(
    protection: &mut SpawnProtection,
    dt: u64,
    overlapping_any: bool,
    faction: Faction,
    ally_castle: EntityId,
    enemy_castle: EntityId,
) -> (r: Option<UnitActivation>)
    requires
        old(protection).wf(),
        dt <= MAX_TICK_MS,
    ensures
        final(protection).wf(),
        final(protection).0.period_ms == old(protection).0.period_ms,
        final(protection).0.elapsed_ms == if old(protection).0.elapsed_ms + dt >= old(
            protection,
        ).0.period_ms {
            old(protection).0.period_ms as int
        } else {
            old(protection).0.elapsed_ms + dt
        },
        r is Some <==> (old(protection).0.elapsed_ms + dt >= old(protection).0.period_ms
            && !overlapping_any),
        r matches Some(a) ==> {
            let target = if faction is Ally {
                enemy_castle
            } else {
                ally_castle
            };
            &&& a.behaviour == Behaviour::MoveAndAttack(target)
            &&& a.default_behaviour.0 == a.behaviour
            &&& a.hurt_box_radius == HURT_BOX_RADIUS
            &&& a.hurt_box_layers == spec_hurt_layers(faction)
            &&& a.hit_box.damage == UNIT_DAMAGE
            &&& a.hit_box.kind matches HitBoxKind::Once(v) && v@ == Seq::<EntityId>::empty()
            &&& a.hit_box.wf()
            &&& a.hit_box_radius == HIT_BOX_RADIUS
            &&& a.hit_box_layers == spec_hit_layers(faction)
            &&& a.attack_cooldown.wf()
            &&& a.attack_cooldown.timer.period_ms == ATTACK_COOLDOWN_MS
            &&& a.attack_cooldown.timer.elapsed_ms == 0
            &&& a.enemy_finder_radius == ENEMY_FINDER_RADIUS
            &&& a.enemy_finder_layers == spec_hit_layers(faction)
        },
{
    protection.0.tick(dt);
    if protection.0.finished() && !overlapping_any {
        let target: EntityId = match faction {
            Faction::Ally => enemy_castle,
            Faction::Enemy => ally_castle,
        };
        let behaviour = Behaviour::MoveAndAttack(target);
        Some(
            UnitActivation {
                behaviour,
                default_behaviour: DefaultBehaviour(behaviour),
                hurt_box_radius: HURT_BOX_RADIUS,
                hurt_box_layers: hurt_layers(faction),
                hit_box: HitBox { damage: UNIT_DAMAGE, kind: HitBoxKind::Once(Vec::new()) },
                hit_box_radius: HIT_BOX_RADIUS,
                hit_box_layers: hit_layers(faction),
                attack_cooldown: AttackCooldown::new(),
                enemy_finder_radius: ENEMY_FINDER_RADIUS,
                enemy_finder_layers: hit_layers(faction),
            },
        )
    } else {
        None
    }
}

} // verus!
