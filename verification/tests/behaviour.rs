use castle_siege::behaviour::{
    acquire_target, behaviour_step, chase_velocity, dist_sq_u64, isqrt, seek_velocity,
    select_nearest, Behaviour, DefaultBehaviour, Vec2, SEEK_SPEED, WANDER_PERIOD_MS,
};
use castle_siege::timer::TickTimer;

#[test]
fn isqrt_exact_values() {
    assert_eq!(isqrt(0), 0);
    assert_eq!(isqrt(1), 1);
    assert_eq!(isqrt(2), 1);
    assert_eq!(isqrt(3), 1);
    assert_eq!(isqrt(4), 2);
    assert_eq!(isqrt(24), 4);
    assert_eq!(isqrt(25), 5);
    assert_eq!(isqrt(26), 5);
    assert_eq!(isqrt(1_000_000), 1000);
    assert_eq!(isqrt(u64::MAX), 4_294_967_295);
}

#[test]
fn dist_sq_is_exact() {
    let a = Vec2::new(0, 0);
    let b = Vec2::new(3000, 4000);
    assert_eq!(dist_sq_u64(a, b), 25_000_000);
    assert_eq!(dist_sq_u64(b, a), 25_000_000);
    assert_eq!(dist_sq_u64(a, a), 0);
}

/// A three-four-five triangle: seeking scales the delta by
/// speed / distance exactly.
#[test]
fn seek_velocity_normalizes_and_scales() {
    let src = Vec2::new(0, 0);
    let dst = Vec2::new(3000, 4000);
    // distance is 5000 milli-units
    let v = seek_velocity(src, dst, SEEK_SPEED);
    assert_eq!(v.x, 3000 * 30_000 / 5000);
    assert_eq!(v.y, 4000 * 30_000 / 5000);
    assert_eq!(v.x, 18_000);
    assert_eq!(v.y, 24_000);
}

#[test]
fn seek_velocity_handles_negative_directions() {
    let src = Vec2::new(3000, 4000);
    let dst = Vec2::new(0, 0);
    let v = seek_velocity(src, dst, SEEK_SPEED);
    assert_eq!(v.x, -18_000);
    assert_eq!(v.y, -24_000);
}

#[test]
fn seeking_own_position_stands_still() {
    let p = Vec2::new(500, -500);
    let v = seek_velocity(p, p, SEEK_SPEED);
    assert_eq!(v, Vec2::zero());
}

#[test]
fn chase_decelerates_on_approach() {
    let src = Vec2::new(0, 0);
    // fifty units away: clamped distance 50000, speed (50000-1000)*3/10
    let far = chase_velocity(src, Vec2::new(0, 50_000));
    assert_eq!(far.y, 14_700);
    assert_eq!(far.x, 0);
    // beyond a hundred units the speed caps just below the seek speed
    let capped = chase_velocity(src, Vec2::new(0, 200_000));
    assert_eq!(capped.y, (100_000 - 1000) * 3 / 10 * 200_000 / 200_000);
    assert_eq!(capped.y, 29_700);
    // inside one unit the chase stops
    let close = chase_velocity(src, Vec2::new(0, 900));
    assert_eq!(close.y, 0);
}

/// A unit chasing a despawned target stops and reverts to its saved
/// default behaviour.
#[test]
fn lost_target_falls_back_to_default_behaviour() {
    let castle_target = Behaviour::MoveAndAttack(42);
    let saved = DefaultBehaviour(castle_target);
    let decision = behaviour_step(
        Behaviour::MoveAndAttack(99),
        Some(&saved),
        Vec2::new(0, 0),
        None,
        false,
        16,
        0,
        0,
    );
    assert_eq!(decision.velocity, Vec2::zero());
    assert_eq!(decision.behaviour, castle_target);
}

/// With no saved default, a lost target leaves the unit wandering
/// from a standstill.
#[test]
fn lost_target_without_default_wanders() {
    let decision =
        behaviour_step(Behaviour::MoveAndAttack(99), None, Vec2::new(0, 0), None, false, 16, 0, 0);
    assert_eq!(decision.velocity, Vec2::zero());
    match decision.behaviour {
        Behaviour::Wandering(timer, saved) => {
            assert_eq!(timer.period_ms, WANDER_PERIOD_MS);
            assert_eq!(timer.elapsed_ms, 0);
            assert_eq!(saved, Vec2::zero());
        }
        other => panic!("expected wandering, got {:?}", other),
    }
}

#[test]
fn chasing_in_melee_range_holds_still() {
    let decision = behaviour_step(
        Behaviour::MoveAndAttack(5),
        None,
        Vec2::new(0, 0),
        Some(Vec2::new(10_000, 0)),
        true,
        16,
        0,
        0,
    );
    assert_eq!(decision.velocity, Vec2::zero());
    assert_eq!(decision.behaviour, Behaviour::MoveAndAttack(5));
}

#[test]
fn chasing_out_of_range_closes_in() {
    let decision = behaviour_step(
        Behaviour::MoveAndAttack(5),
        None,
        Vec2::new(0, 0),
        Some(Vec2::new(0, 50_000)),
        false,
        16,
        0,
        0,
    );
    assert_eq!(decision.velocity, Vec2::new(0, 14_700));
    assert_eq!(decision.behaviour, Behaviour::MoveAndAttack(5));
}

#[test]
fn wandering_renews_velocity_only_when_the_timer_fires() {
    let timer = TickTimer::repeating(WANDER_PERIOD_MS);
    let saved = Vec2::new(1000, -1000);
    let b = Behaviour::Wandering(timer, saved);

    // timer does not fire: the saved velocity is held
    let held = behaviour_step(b, None, Vec2::zero(), None, false, 100, 50, -50);
    assert_eq!(held.velocity, saved);

    // timer fires: the jitter draw scales to the new velocity
    let renewed = behaviour_step(b, None, Vec2::zero(), None, false, WANDER_PERIOD_MS, 50, -50);
    assert_eq!(renewed.velocity, Vec2::new(50 * 200, -50 * 200));
    match renewed.behaviour {
        Behaviour::Wandering(_, s) => assert_eq!(s, Vec2::new(10_000, -10_000)),
        other => panic!("expected wandering, got {:?}", other),
    }
}

#[test]
fn move_to_point_seeks_at_fixed_speed() {
    let decision = behaviour_step(
        Behaviour::MoveToPoint(Vec2::new(3000, 4000)),
        None,
        Vec2::new(0, 0),
        None,
        false,
        16,
        0,
        0,
    );
    assert_eq!(decision.velocity, Vec2::new(18_000, 24_000));
    assert_eq!(decision.behaviour, Behaviour::MoveToPoint(Vec2::new(3000, 4000)));
}

#[test]
fn select_nearest_picks_the_closest_candidate() {
    let src = Vec2::new(0, 0);
    let candidates =
        vec![(1, Vec2::new(10_000, 0)), (2, Vec2::new(2000, 0)), (3, Vec2::new(5000, 0))];
    assert_eq!(select_nearest(src, &candidates), Some(2));
}

#[test]
fn select_nearest_breaks_ties_by_report_order() {
    let src = Vec2::new(0, 0);
    let candidates = vec![(7, Vec2::new(0, 3000)), (8, Vec2::new(3000, 0)), (9, Vec2::new(0, -3000))];
    assert_eq!(select_nearest(src, &candidates), Some(7));
}

#[test]
fn select_nearest_of_nothing_is_none() {
    assert_eq!(select_nearest(Vec2::zero(), &Vec::new()), None);
}

#[test]
fn wandering_unit_acquires_the_nearest_candidate() {
    let wandering = Behaviour::Wandering(TickTimer::repeating(WANDER_PERIOD_MS), Vec2::zero());
    let candidates = vec![(4, Vec2::new(9000, 0)), (5, Vec2::new(-4000, 0))];
    let acquired = acquire_target(wandering, Vec2::zero(), &candidates);
    assert_eq!(acquired, Behaviour::MoveAndAttack(5));
}

#[test]
fn acquisition_leaves_busy_or_idle_units_alone() {
    let chasing = Behaviour::MoveAndAttack(3);
    let candidates = vec![(4, Vec2::new(9000, 0))];
    assert_eq!(acquire_target(chasing, Vec2::zero(), &candidates), chasing);

    let wandering = Behaviour::Wandering(TickTimer::repeating(WANDER_PERIOD_MS), Vec2::zero());
    assert_eq!(acquire_target(wandering, Vec2::zero(), &Vec::new()), wandering);
}
