//! Monotonic countdown timers advanced by the host loop's tick delta.
//!
//! Firing is edge-triggered: a timer reports a firing only on the tick
//! where the accumulated time crosses its period, never on every tick
//! while expired.  A repeating timer keeps the remainder past the
//! period boundary; firing is capped at one per tick even when the
//! delta spans several periods (a deliberate simplification: the host
//! loop runs many ticks per period in normal play).

use vstd::prelude::*;

verus! {

/// Upper bound on a timer period, in milliseconds (about 11 days).
/// Keeps all timer arithmetic far away from `u64` overflow.
pub const MAX_PERIOD_MS: u64 = 1_000_000_000;

/// Upper bound on a single tick delta, in milliseconds.
pub const MAX_TICK_MS: u64 = 1_000_000_000;

/// A countdown timer: accumulated elapsed time against a fixed period.
///
/// A repeating timer fires whenever the accumulated time crosses the
/// period and then keeps the remainder.  A one-shot timer fires once,
/// on the tick where the period is first reached, and stays finished.
#[derive(Clone, Copy, Debug, PartialEq, Eq, Structural)]
pub struct TickTimer {
    pub elapsed_ms: u64,
    pub period_ms: u64,
    pub repeating: bool,
}

impl TickTimer {
    /// Well-formedness: the period is positive and bounded, and the
    /// accumulated time never exceeds the period (for a repeating
    /// timer it stays strictly below: the remainder after a firing).
    pub open spec fn wf(&self) -> bool {
        &&& 0 < self.period_ms <= MAX_PERIOD_MS
        &&& if self.repeating {
            self.elapsed_ms < self.period_ms
        } else {
            self.elapsed_ms <= self.period_ms
        }
    }

    /// Whether advancing by `dt` makes the timer fire on that tick.
    pub open spec fn spec_fires(&self, dt: u64) -> bool {
        self.elapsed_ms + dt >= self.period_ms && self.elapsed_ms < self.period_ms
    }

    /// A fresh repeating timer.
    pub fn repeating(period_ms: u64) -> (r: Self)
        requires
            0 < period_ms <= MAX_PERIOD_MS,
        ensures
            r.wf(),
            r == (TickTimer { elapsed_ms: 0, period_ms, repeating: true }),
    {
        TickTimer { elapsed_ms: 0, period_ms, repeating: true }
    }

    /// A fresh one-shot timer.
    pub fn once(period_ms: u64) -> (r: Self)
        requires
            0 < period_ms <= MAX_PERIOD_MS,
        ensures
            r.wf(),
            r == (TickTimer { elapsed_ms: 0, period_ms, repeating: false }),
    {
        TickTimer { elapsed_ms: 0, period_ms, repeating: false }
    }

    /// Rebuild a timer from stored parts (used when restoring a
    /// snapshot).
    pub fn from_parts(elapsed_ms: u64, period_ms: u64, repeating: bool) -> (r: Self)
        requires
            0 < period_ms <= MAX_PERIOD_MS,
            repeating ==> elapsed_ms < period_ms,
            !repeating ==> elapsed_ms <= period_ms,
        ensures
            r.wf(),
            r == (TickTimer { elapsed_ms, period_ms, repeating }),
    {
        TickTimer { elapsed_ms, period_ms, repeating }
    }

    /// Whether a one-shot timer has reached its period.  Stays true
    /// once reached, unlike the edge-triggered firing of `tick`.
    pub fn finished(&self) -> (r: bool)
        ensures
            r == (self.elapsed_ms >= self.period_ms),
    {
        self.elapsed_ms >= self.period_ms
    }

    /// Advance by `dt` milliseconds; report whether the timer fired on
    /// this tick.  A repeating timer keeps the remainder past the
    /// period; a one-shot timer saturates at the period and never
    /// fires again.
    pub fn tick(&mut self, dt: u64) -> (fired: bool)
        requires
            old(self).wf(),
            dt <= MAX_TICK_MS,
        ensures
            final(self).wf(),
            fired == old(self).spec_fires(dt),
            final(self).period_ms == old(self).period_ms,
            final(self).repeating == old(self).repeating,
            final(self).elapsed_ms == if old(self).repeating {
                (old(self).elapsed_ms + dt) % (old(self).period_ms as int)
            } else if old(self).elapsed_ms + dt >= old(self).period_ms {
                old(self).period_ms as int
            } else {
                old(self).elapsed_ms + dt
            },
    {
        let sum: u64 = self.elapsed_ms + dt;
        let fired: bool = sum >= self.period_ms && self.elapsed_ms < self.period_ms;
        if self.repeating {
            self.elapsed_ms = sum % self.period_ms;
        } else if sum >= self.period_ms {
            self.elapsed_ms = self.period_ms;
        } else {
            self.elapsed_ms = sum;
        }
        fired
    }

    /// Change the period, keeping the accumulated progress modulo the
    /// new period (a reactive recompute of a cooldown must not grant
    /// an immediate extra firing).
    pub fn set_period_ms(&mut self, period_ms: u64)
        requires
            old(self).wf(),
            0 < period_ms <= MAX_PERIOD_MS,
        ensures
            final(self).wf(),
            final(self).period_ms == period_ms,
            final(self).repeating == old(self).repeating,
            final(self).elapsed_ms == old(self).elapsed_ms as int % (period_ms as int),
    {
        self.elapsed_ms = self.elapsed_ms % period_ms;
        self.period_ms = period_ms;
    }
}

} // verus!
