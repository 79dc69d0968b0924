//! The per-unit behaviour state machine: movement intent computed
//! once per tick.
//!
//! A unit is `Wandering` (velocity jitter renewed on a periodic
//! timer), seeking a fixed point (`MoveToPoint`), or chasing a live
//! target (`MoveAndAttack`).  The host supplies positions, the
//! target-lookup outcome and the overlap report; this module returns
//! the next behaviour and the velocity to hand the physics
//! collaborator.
//!
//! Positions and velocities are in milli-units.  Seeking moves at a
//! fixed speed along the normalized direction; chasing decelerates
//! smoothly as the distance closes.  Normalization uses the exact
//! integer square root of the squared distance.

use vstd::prelude::*;

use crate::attributes::EntityId;
use crate::timer::{TickTimer, MAX_TICK_MS};

verus! {

/// Bound on a world coordinate, in milli-units (a thousand kilometers
/// of play field): keeps every squared distance inside `u64`.
pub const COORD_LIMIT: i64 = 1_000_000_000;

/// Bound on a speed magnitude, in milli-units per second.
pub const MAX_SPEED: u64 = 100_000;

/// Fixed seek speed of `MoveToPoint`, in milli-units per second.
pub const SEEK_SPEED: u64 = 30_000;

/// Speed factor of `Wandering`: jitter components in `[-100, 100]`
/// scale to a velocity of at most twenty units per second.
pub const WANDER_SPEED_SCALE: i64 = 200;

/// Period of the wander jitter timer, in milliseconds.
pub const WANDER_PERIOD_MS: u64 = 2500;

/// A 2D point or velocity in milli-units.
#[derive(Clone, Copy, Debug, PartialEq, Eq, Structural)]
pub struct Vec2 {
    pub x: i64,
    pub y: i64,
}

impl Vec2 {
    /// Well-formedness: both coordinates within the world bound.
    pub open spec fn wf(&self) -> bool {
        &&& -COORD_LIMIT <= self.x <= COORD_LIMIT
        &&& -COORD_LIMIT <= self.y <= COORD_LIMIT
    }

    pub fn new(x: i64, y: i64) -> (r: Self)
        ensures
            r == (Vec2 { x, y }),
    {
        Vec2 { x, y }
    }

    /// The zero vector (a standstill velocity).
    pub fn zero() -> (r: Self)
        ensures
            r == (Vec2 { x: 0, y: 0 }),
    {
        Vec2 { x: 0, y: 0 }
    }
}

/// Squared Euclidean distance between two points.  Comparing squared
/// distances orders points exactly as comparing distances does.
pub open spec fn dist_sq(a: Vec2, b: Vec2) -> int {
    (a.x - b.x) * (a.x - b.x) + (a.y - b.y) * (a.y - b.y)
}

/// `r` is the integer square root of `n`, rounded down.
pub open spec fn is_sqrt_floor(n: int, r: int) -> bool {
    0 <= r && r * r <= n && n < (r + 1) * (r + 1)
}

/// The integer square root is unique, so a contract that names the
/// distance only through `is_sqrt_floor` (as the velocity functions
/// below do) still pins its result exactly.
pub proof fn lemma_sqrt_floor_unique(n: int, r1: int, r2: int)
    requires
        is_sqrt_floor(n, r1),
        is_sqrt_floor(n, r2),
    ensures
        r1 == r2,
{
    if r1 < r2 {
        assert((r1 + 1) * (r1 + 1) <= r2 * r2) by (nonlinear_arith)
            requires
                0 <= r1,
                r1 + 1 <= r2,
        ;
    }
    if r2 < r1 {
        assert((r2 + 1) * (r2 + 1) <= r1 * r1) by (nonlinear_arith)
            requires
                0 <= r2,
                r2 + 1 <= r1,
        ;
    }
}

/// Integer square root, rounded down, by binary search.
pub fn isqrt(n: u64) -> (r: u64)
    ensures
        is_sqrt_floor(n as int, r as int),
        r < 4_294_967_296,
{
    let mut lo: u64 = 0;
    let mut hi: u64 = 4_294_967_296;
    proof {
        assert((hi as int) * (hi as int) == 0x10000000000000000);
    }
    while lo + 1 < hi
        invariant
            lo < hi <= 4_294_967_296,
            (lo as int) * (lo as int) <= n as int,
            (n as int) < (hi as int) * (hi as int),
        decreases hi - lo,
    {
        let mid: u64 = lo + (hi - lo) / 2;
        proof {
            assert((mid as int) * (mid as int) <= 0x10000000000000000) by (nonlinear_arith)
                requires
                    mid <= 4_294_967_296,
            ;
        }
        if (mid as u128) * (mid as u128) <= (n as u128) {
            lo = mid;
        } else {
            hi = mid;
        }
    }
    lo
}

/// The squared distance between two well-formed points, computed
/// exactly (it always fits: coordinates are bounded).
pub fn dist_sq_u64(a: Vec2, b: Vec2) -> (r: u64)
    requires
        a.wf(),
        b.wf(),
    ensures
        r == dist_sq(a, b),
{
    let dx: i64 = a.x - b.x;
    let dy: i64 = a.y - b.y;
    proof {
        assert(0 <= dx * dx <= 4_000_000_000_000_000_000) by (nonlinear_arith)
            requires
                -2_000_000_000 <= dx <= 2_000_000_000,
        ;
        assert(0 <= dy * dy <= 4_000_000_000_000_000_000) by (nonlinear_arith)
            requires
                -2_000_000_000 <= dy <= 2_000_000_000,
        ;
    }
    (dx * dx) as u64 + (dy * dy) as u64
}

/// One velocity component of motion from `src` toward `dst`: the
/// coordinate delta scaled by `speed` and divided by the distance
/// `dist` — the integer form of "normalize, then scale".
pub open spec fn scaled_toward(delta: int, speed: int, dist: int) -> int {
    if delta >= 0 {
        (delta * speed) / dist
    } else {
        -(((-delta) * speed) / dist)
    }
}

/// One exactly computed velocity component (see `scaled_toward`).
fn scaled_component(delta: i64, speed: u64, dist: u64) -> (r: i64)
    requires
        -2 * COORD_LIMIT <= delta <= 2 * COORD_LIMIT,
        speed <= MAX_SPEED,
        dist > 0,
    ensures
        r == scaled_toward(delta as int, speed as int, dist as int),
{
    if delta >= 0 {
        proof {
            assert(delta * speed <= 200_000_000_000_000) by (nonlinear_arith)
                requires
                    0 <= delta <= 2_000_000_000,
                    0 <= speed <= 100_000,
            ;
        }
        let num: u64 = (delta as u64) * speed;
        proof {
            assert((num as int) / (dist as int) <= num as int) by (nonlinear_arith)
                requires
                    dist >= 1,
                    num >= 0,
            ;
        }
        (num / dist) as i64
    } else {
        let neg: i64 = -delta;
        proof {
            assert(neg * speed <= 200_000_000_000_000) by (nonlinear_arith)
                requires
                    0 <= neg <= 2_000_000_000,
                    0 <= speed <= 100_000,
            ;
        }
        let num: u64 = (neg as u64) * speed;
        proof {
            assert((num as int) / (dist as int) <= num as int) by (nonlinear_arith)
                requires
                    dist >= 1,
                    num >= 0,
            ;
        }
        let mag: u64 = num / dist;
        -(mag as i64)
    }
}

/// Velocity seeking straight from `src` toward `dst` at `speed`:
/// the delta normalized by the exact integer distance and scaled.
/// Seeking a point from the point itself is a standstill.
pub fn seek_velocity(src: Vec2, dst: Vec2, speed: u64) -> (v: Vec2)
    requires
        src.wf(),
        dst.wf(),
        speed <= MAX_SPEED,
    ensures
        dist_sq(src, dst) == 0 ==> v == (Vec2 { x: 0, y: 0 }),
        dist_sq(src, dst) > 0 ==> exists|d: int|
            {
                &&& #[trigger] is_sqrt_floor(dist_sq(src, dst), d)
                &&& v.x == scaled_toward(dst.x - src.x, speed as int, d)
                &&& v.y == scaled_toward(dst.y - src.y, speed as int, d)
            },
{
    let ds: u64 = dist_sq_u64(src, dst);
    let d: u64 = isqrt(ds);
    if d == 0 {
        proof {
            assert((0 + 1) * (0 + 1) == 1) by (nonlinear_arith);
            assert(ds == 0);
        }
        return Vec2 { x: 0, y: 0 };
    }
    proof {
        assert(1 <= (d as int) * (d as int)) by (nonlinear_arith)
            requires
                d >= 1,
        ;
    }
    let out = Vec2 {
        x: scaled_component(dst.x - src.x, speed, d),
        y: scaled_component(dst.y - src.y, speed, d),
    };
    proof {
        let dd = d as int;
        assert(is_sqrt_floor(dist_sq(src, dst), dd));
        assert(out.x == scaled_toward(dst.x - src.x, speed as int, dd));
        assert(out.y == scaled_toward(dst.y - src.y, speed as int, dd));
        assert(exists|e: int|
            {
                &&& #[trigger] is_sqrt_floor(dist_sq(src, dst), e)
                &&& out.x == scaled_toward(dst.x - src.x, speed as int, e)
                &&& out.y == scaled_toward(dst.y - src.y, speed as int, e)
            });
    }
    out
}

/// The chase speed at integer distance `dist` (milli-units): the
/// distance clamped into one to a hundred units, renormalized so the
/// speed decays smoothly to zero as the chaser closes in, at most
/// just under the seek speed when far away.
pub open spec fn chase_speed(dist: int) -> int {
    let clamped = if dist < 1000 {
        1000int
    } else if dist > 100_000 {
        100_000int
    } else {
        dist
    };
    (clamped - 1000) * 3 / 10
}

/// Exactly computed chase speed (see `chase_speed`).
fn chase_speed_at(dist: u64) -> (r: u64)
    ensures
        r == chase_speed(dist as int),
        r <= MAX_SPEED,
{
    let clamped: u64 = if dist < 1000 {
        1000
    } else if dist > 100_000 {
        100_000
    } else {
        dist
    };
    (clamped - 1000) * 3 / 10
}

/// Velocity chasing a target at `dst` from `src`: like seeking, but
/// the speed decays smoothly to zero as the distance closes (see
/// `chase_speed`), so motion decelerates on approach rather than
/// stopping abruptly.
pub fn chase_velocity(src: Vec2, dst: Vec2) -> (v: Vec2)
    requires
        src.wf(),
        dst.wf(),
    ensures
        dist_sq(src, dst) == 0 ==> v == (Vec2 { x: 0, y: 0 }),
        dist_sq(src, dst) > 0 ==> exists|d: int|
            {
                &&& #[trigger] is_sqrt_floor(dist_sq(src, dst), d)
                &&& v.x == scaled_toward(dst.x - src.x, chase_speed(d), d)
                &&& v.y == scaled_toward(dst.y - src.y, chase_speed(d), d)
            },
{
    let ds: u64 = dist_sq_u64(src, dst);
    let d: u64 = isqrt(ds);
    if d == 0 {
        proof {
            assert((0 + 1) * (0 + 1) == 1) by (nonlinear_arith);
            assert(ds == 0);
        }
        return Vec2 { x: 0, y: 0 };
    }
    proof {
        assert(1 <= (d as int) * (d as int)) by (nonlinear_arith)
            requires
                d >= 1,
        ;
    }
    let speed: u64 = chase_speed_at(d);
    let out = Vec2 {
        x: scaled_component(dst.x - src.x, speed, d),
        y: scaled_component(dst.y - src.y, speed, d),
    };
    proof {
        let dd = d as int;
        assert(is_sqrt_floor(dist_sq(src, dst), dd));
        assert(exists|e: int|
            {
                &&& #[trigger] is_sqrt_floor(dist_sq(src, dst), e)
                &&& out.x == scaled_toward(dst.x - src.x, chase_speed(e), e)
                &&& out.y == scaled_toward(dst.y - src.y, chase_speed(e), e)
            });
    }
    out
}

/// A unit's movement intent, matched exhaustively each tick.
#[derive(Clone, Copy, Debug, PartialEq, Eq, Structural)]
pub enum Behaviour {
    /// No target: velocity jitter renewed whenever the timer fires,
    /// held constant in between (the saved velocity rides along so
    /// motion is not recomputed every tick).
    Wandering(TickTimer, Vec2),
    /// Straight-line seek toward a fixed point.
    MoveToPoint(Vec2),
    /// Chase a living entity; falls back to the unit's saved default
    /// behaviour when the target no longer resolves.
    MoveAndAttack(EntityId),
}

/// The behaviour a freshly spawned autonomous unit starts in, and the
/// fallback when a target is lost with no saved default: wandering
/// from a standstill.
pub open spec fn spec_default_wander() -> Behaviour {
    Behaviour::Wandering(
        TickTimer { elapsed_ms: 0, period_ms: WANDER_PERIOD_MS, repeating: true },
        Vec2 { x: 0, y: 0 },
    )
}

impl Behaviour {
    /// Well-formedness: any embedded timer is a well-formed repeating
    /// timer and any embedded point is within the world bound.
    pub open spec fn wf(&self) -> bool {
        match self {
            Behaviour::Wandering(timer, saved) => timer.wf() && timer.repeating && saved.wf(),
            Behaviour::MoveToPoint(dst) => dst.wf(),
            Behaviour::MoveAndAttack(_) => true,
        }
    }
}

impl Default for Behaviour {
    /// Wandering from a standstill, jitter renewed every two and a
    /// half seconds.
    fn default() -> (r: Self)
        ensures
            r == spec_default_wander(),
            r.wf(),
    {
        Behaviour::Wandering(TickTimer::repeating(WANDER_PERIOD_MS), Vec2 { x: 0, y: 0 })
    }
}

/// The saved fallback a unit reverts to when its attack target stops
/// resolving (typically chasing the opposing castle).
#[derive(Clone, Copy, Debug, PartialEq, Eq, Structural)]
pub struct DefaultBehaviour(pub Behaviour);

/// Marker for the child sensor that reports overlapping
/// opposing-faction units for target acquisition.
#[derive(Clone, Copy, Debug, Default, PartialEq, Eq, Structural)]
pub struct EnemyFinder;

/// What one behaviour tick decides: the unit's next behaviour and the
/// velocity to hand the physics collaborator.
#[derive(Clone, Copy, Debug, PartialEq, Eq, Structural)]
pub struct BehaviourDecision {
    pub behaviour: Behaviour,
    pub velocity: Vec2,
}

/// The wander velocity a jitter draw produces: each component in
/// `[-100, 100]` scaled to milli-units per second.
pub open spec fn wander_velocity(jitter_x: int, jitter_y: int) -> Vec2 {
    Vec2 { x: (jitter_x * WANDER_SPEED_SCALE) as i64, y: (jitter_y * WANDER_SPEED_SCALE) as i64 }
}

/// One behaviour tick for one unit, evaluated by the host loop with
/// this tick's inputs:
/// - `src`: the unit's current position;
/// - `target_pos`: where the current `MoveAndAttack` target stands,
///   or `None` if the target no longer resolves (despawned);
/// - `overlapping_target`: whether the unit's collider currently
///   overlaps the target's (melee range);
/// - `jitter_x`, `jitter_y`: this tick's random wander draw, each in
///   `[-100, 100]`.
///
/// Wandering renews its saved velocity only when its timer fires and
/// holds it otherwise.  Seeking moves at the fixed seek speed.
/// Chasing holds still in melee range, decelerates on approach
/// otherwise, and on a lost target stops and reverts to the saved
/// default behaviour (or to plain wandering if none was saved).
pub fn behaviour_step(
    behaviour: Behaviour,
    default_behaviour: Option<&DefaultBehaviour>,
    src: Vec2,
    target_pos: Option<Vec2>,
    overlapping_target: bool,
    dt: u64,
    jitter_x: i64,
    jitter_y: i64,
) -> (r: BehaviourDecision)
    requires
        behaviour.wf(),
        src.wf(),
        target_pos matches Some(p) ==> p.wf(),
        default_behaviour matches Some(d) ==> d.0.wf(),
        dt <= MAX_TICK_MS,
        -100 <= jitter_x <= 100,
        -100 <= jitter_y <= 100,
    ensures
        r.behaviour.wf(),
        match behaviour {
            Behaviour::Wandering(timer, saved) => {
                let held = if timer.spec_fires(dt) {
                    wander_velocity(jitter_x as int, jitter_y as int)
                } else {
                    saved
                };
                &&& r.velocity == held
                &&& r.behaviour matches Behaviour::Wandering(t2, s2) && s2 == held
                    && t2.period_ms == timer.period_ms && t2.repeating && t2.elapsed_ms == (
                timer.elapsed_ms + dt) % (timer.period_ms as int)
            },
            Behaviour::MoveToPoint(dst) => {
                &&& r.behaviour == behaviour
                &&& dist_sq(src, dst) == 0 ==> r.velocity == (Vec2 { x: 0, y: 0 })
                &&& dist_sq(src, dst) > 0 ==> exists|d: int|
                    {
                        &&& #[trigger] is_sqrt_floor(dist_sq(src, dst), d)
                        &&& r.velocity.x == scaled_toward(dst.x - src.x, SEEK_SPEED as int, d)
                        &&& r.velocity.y == scaled_toward(dst.y - src.y, SEEK_SPEED as int, d)
                    }
            },
            Behaviour::MoveAndAttack(_) => {
                match target_pos {
                    None => {
                        &&& r.velocity == (Vec2 { x: 0, y: 0 })
                        &&& r.behaviour == (match default_behaviour {
                            Some(d) => d.0,
                            None => spec_default_wander(),
                        })
                    },
                    Some(tp) => {
                        &&& r.behaviour == behaviour
                        &&& overlapping_target ==> r.velocity == (Vec2 { x: 0, y: 0 })
                        &&& !overlapping_target ==> {
                            &&& dist_sq(src, tp) == 0 ==> r.velocity == (Vec2 { x: 0, y: 0 })
                            &&& dist_sq(src, tp) > 0 ==> exists|d: int|
                                {
                                    &&& #[trigger] is_sqrt_floor(dist_sq(src, tp), d)
                                    &&& r.velocity.x == scaled_toward(
                                        tp.x - src.x,
                                        chase_speed(d),
                                        d,
                                    )
                                    &&& r.velocity.y == scaled_toward(
                                        tp.y - src.y,
                                        chase_speed(d),
                                        d,
                                    )
                                }
                        }
                    },
                }
            },
        },
{
    match behaviour {
        Behaviour::Wandering(timer, saved) => {
            let mut timer2 = timer;
            let fired = timer2.tick(dt);
            let held = if fired {
                Vec2 { x: jitter_x * WANDER_SPEED_SCALE, y: jitter_y * WANDER_SPEED_SCALE }
            } else {
                saved
            };
            BehaviourDecision { behaviour: Behaviour::Wandering(timer2, held), velocity: held }
        },
        Behaviour::MoveToPoint(dst) => {
            let velocity = seek_velocity(src, dst, SEEK_SPEED);
            BehaviourDecision { behaviour, velocity }
        },
        Behaviour::MoveAndAttack(_) => {
            match target_pos {
                None => {
                    let fallback = match default_behaviour {
                        Some(d) => d.0,
                        None => Behaviour::default(),
                    };
                    BehaviourDecision { behaviour: fallback, velocity: Vec2 { x: 0, y: 0 } }
                },
                Some(tp) => {
                    if overlapping_target {
                        BehaviourDecision { behaviour, velocity: Vec2 { x: 0, y: 0 } }
                    } else {
                        let velocity = chase_velocity(src, tp);
                        BehaviourDecision { behaviour, velocity }
                    }
                },
            }
        },
    }
}

/// Distance (squared) from `src` to one finder candidate.
pub open spec fn candidate_dist_sq(src: Vec2, candidate: (EntityId, Vec2)) -> int {
    dist_sq(src, candidate.1)
}

/// `e` is the entity the nearest-enemy selection must return for
/// `candidates`: the owner at the first index whose distance to `src`
/// is minimal (an exact tie goes to the first encountered, so
/// selection is deterministic for a fixed report order).
pub open spec fn is_nearest_choice(
    src: Vec2,
    candidates: Seq<(EntityId, Vec2)>,
    e: EntityId,
) -> bool {
    exists|i: int|
        {
            &&& 0 <= i < candidates.len()
            &&& (#[trigger] candidates[i]).0 == e
            &&& forall|j: int|
                0 <= j < candidates.len() ==> candidate_dist_sq(src, #[trigger] candidates[j])
                    >= candidate_dist_sq(src, candidates[i])
            &&& forall|j: int|
                0 <= j < i ==> candidate_dist_sq(src, #[trigger] candidates[j])
                    > candidate_dist_sq(src, candidates[i])
        }
}

/// Target acquisition: among the candidates the finder sensor
/// reports (each an owning entity with its position), pick the one
/// nearest to `src` (see `is_nearest_choice`).  Returns nothing
/// exactly when there are no candidates.
pub fn select_nearest(src: Vec2, candidates: &Vec<(EntityId, Vec2)>) -> (r: Option<EntityId>)
    requires
        src.wf(),
        forall|i: int| 0 <= i < candidates@.len() ==> (#[trigger] candidates@[i]).1.wf(),
    ensures
        r is None <==> candidates@.len() == 0,
        r matches Some(e) ==> is_nearest_choice(src, candidates@, e),
{
    if candidates.len() == 0 {
        return None;
    }
    let mut best_i: usize = 0;
    let mut best_d: u64 = dist_sq_u64(src, candidates[0].1);
    let mut i: usize = 1;
    while i < candidates.len()
        invariant
            1 <= i <= candidates@.len(),
            0 <= best_i < i,
            src.wf(),
            forall|k: int| 0 <= k < candidates@.len() ==> (#[trigger] candidates@[k]).1.wf(),
            best_d == candidate_dist_sq(src, candidates@[best_i as int]),
            forall|j: int|
                0 <= j < i ==> candidate_dist_sq(src, #[trigger] candidates@[j]) >= best_d,
            forall|j: int|
                0 <= j < best_i ==> candidate_dist_sq(src, #[trigger] candidates@[j]) > best_d,
        decreases candidates@.len() - i,
    {
        let d = dist_sq_u64(src, candidates[i].1);
        if d < best_d {
            best_d = d;
            best_i = i;
        }
        i = i + 1;
    }
    Some(candidates[best_i].0)
}

/// The target-acquisition rule, evaluated once per tick per unit
/// before the behaviour step: a wandering unit whose finder reports
/// at least one candidate switches to chasing the nearest one (this
/// transition takes priority over the same tick's timer-driven wander
/// update); a unit already seeking or chasing keeps its behaviour, as
/// does any unit whose finder reports nothing.
pub fn acquire_target(
    behaviour: Behaviour,
    src: Vec2,
    candidates: &Vec<(EntityId, Vec2)>,
) -> (r: Behaviour)
    requires
        behaviour.wf(),
        src.wf(),
        forall|i: int| 0 <= i < candidates@.len() ==> (#[trigger] candidates@[i]).1.wf(),
    ensures
        r.wf(),
        !(behaviour is Wandering) || candidates@.len() == 0 ==> r == behaviour,
        behaviour is Wandering && candidates@.len() > 0 ==> (r matches Behaviour::MoveAndAttack(e)
            && is_nearest_choice(src, candidates@, e)),
{
    if matches!(behaviour, Behaviour::Wandering(..)) {
        match select_nearest(src, candidates) {
            Some(target) => Behaviour::MoveAndAttack(target),
            None => behaviour,
        }
    } else {
        behaviour
    }
}

} // verus!
