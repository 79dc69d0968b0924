use castle_siege::timer::TickTimer;

#[test]
fn repeating_timer_fires_on_the_crossing_tick() {
    let mut t = TickTimer::repeating(1000);
    assert!(!t.tick(999));
    assert_eq!(t.elapsed_ms, 999);
    assert!(t.tick(1));
    assert_eq!(t.elapsed_ms, 0);
}

#[test]
fn repeating_timer_keeps_the_remainder() {
    let mut t = TickTimer::repeating(1000);
    assert!(t.tick(1300));
    assert_eq!(t.elapsed_ms, 300);
    assert!(!t.tick(600));
    assert_eq!(t.elapsed_ms, 900);
}

/// A delta spanning several periods still fires only once on that
/// tick: firing is capped at one per tick.
#[test]
fn one_firing_per_tick_even_for_huge_deltas() {
    let mut t = TickTimer::repeating(1000);
    assert!(t.tick(5500));
    assert_eq!(t.elapsed_ms, 500);
}

#[test]
fn once_timer_fires_exactly_once() {
    let mut t = TickTimer::once(100);
    assert!(!t.finished());
    assert!(!t.tick(99));
    assert!(!t.finished());
    assert!(t.tick(1));
    assert!(t.finished());
    // already finished: no further edge, but still finished
    assert!(!t.tick(1000));
    assert!(t.finished());
    assert_eq!(t.elapsed_ms, 100);
}

#[test]
fn changing_the_period_keeps_progress_without_granting_a_firing() {
    let mut t = TickTimer::repeating(2000);
    assert!(!t.tick(1500));
    t.set_period_ms(1000);
    assert_eq!(t.period_ms, 1000);
    // progress is kept modulo the new period: 1500 % 1000
    assert_eq!(t.elapsed_ms, 500);
    assert!(!t.tick(499));
    assert!(t.tick(1));
}

#[test]
fn zero_delta_never_fires() {
    let mut t = TickTimer::repeating(1000);
    assert!(!t.tick(0));
    let mut o = TickTimer::once(1000);
    assert!(!o.tick(0));
}
