use castle_siege::attributes::{resolve_death, DeathOutcome, Health, KILL_BOUNTY};
use castle_siege::faction::Faction;

#[test]
fn new_health_starts_full() {
    let h = Health::new(100);
    assert_eq!(h.current, 100);
    assert_eq!(h.max, 100);
}

#[test]
fn damage_reduces_current() {
    let mut h = Health::new(100);
    h.apply(-30);
    assert_eq!(h.current, 70);
    assert_eq!(h.max, 100);
}

#[test]
fn overkill_damage_clamps_to_zero() {
    let mut h = Health::new(100);
    h.apply(-1000);
    assert_eq!(h.current, 0);
}

#[test]
fn heal_clamps_to_max() {
    let mut h = Health::new(100);
    h.apply(-50);
    h.apply(200);
    assert_eq!(h.current, 100);
}

#[test]
fn extreme_deltas_stay_in_range() {
    let mut h = Health::new(1000);
    h.apply(i64::MIN);
    assert_eq!(h.current, 0);
    h.apply(i64::MAX);
    assert_eq!(h.current, 1000);
    h.apply(i64::MIN);
    h.apply(-1);
    assert_eq!(h.current, 0);
}

#[test]
fn sequence_of_deltas_keeps_clamp_invariant() {
    let mut h = Health::new(250);
    let deltas = [-100, 40, -300, 7000, -1, -249, 250, -250];
    for d in deltas {
        h.apply(d);
        assert!(h.current >= 0 && h.current <= h.max);
    }
    assert_eq!(h.max, 250);
}

#[test]
fn mortal_entity_at_zero_is_removed() {
    let mut h = Health::new(100);
    h.apply(-100);
    assert_eq!(h.current, 0);
    let outcome = resolve_death(&h, false, Faction::Ally);
    assert_eq!(outcome, DeathOutcome::Removed { bounty: 0 });
}

#[test]
fn enemy_death_pays_the_kill_bounty() {
    let mut h = Health::new(100);
    h.apply(-150);
    let outcome = resolve_death(&h, false, Faction::Enemy);
    assert_eq!(outcome, DeathOutcome::Removed { bounty: KILL_BOUNTY });
}

#[test]
fn immortal_entity_survives_zero_health() {
    let mut h = Health::new(1000);
    h.apply(-1000);
    assert_eq!(h.current, 0);
    let outcome = resolve_death(&h, true, Faction::Ally);
    assert_eq!(outcome, DeathOutcome::Lives);
}

#[test]
fn living_entity_is_not_removed() {
    let h = Health::new(100);
    let outcome = resolve_death(&h, false, Faction::Enemy);
    assert_eq!(outcome, DeathOutcome::Lives);
}
