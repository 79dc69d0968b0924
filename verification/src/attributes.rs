//! The attribute system: health storage, clamped damage application
//! and death resolution.

use vstd::prelude::*;

use crate::faction::Faction;

verus! {

/// Entities are referred to by a plain numeric handle; the host's
/// entity store owns the mapping and treats a failed lookup as "the
/// entity no longer exists".
pub type EntityId = u64;

/// Gold credited to the ally economy when an enemy unit dies.
pub const KILL_BOUNTY: u64 = 2;

/// Hit points an entity can take before dying.  `current` is only
/// ever mutated through [`Health::apply`], which clamps it into
/// `[0, max]`.
#[derive(Clone, Copy, Debug, PartialEq, Eq, Structural)]
pub struct Health {
    pub current: i64,
    pub max: i64,
}

/// What a signed health delta leaves behind: the sum clamped into
/// `[0, max]`.
pub open spec fn clamped(current: int, max: int, delta: int) -> int {
    if current + delta < 0 {
        0
    } else if current + delta > max {
        max
    } else {
        current + delta
    }
}

/// `current` after a whole sequence of deltas, each applied clamped.
pub open spec fn clamped_seq(current: int, max: int, deltas: Seq<int>) -> int
    decreases deltas.len(),
{
    if deltas.len() == 0 {
        current
    } else {
        clamped_seq(clamped(current, max, deltas[0]), max, deltas.skip(1))
    }
}

impl Health {
    /// Well-formedness: current health always lies in `[0, max]`.
    pub open spec fn wf(&self) -> bool {
        0 <= self.current <= self.max
    }

    /// A fresh health pool, full.
    pub fn new(max: i64) -> (r: Self)
        requires
            max >= 0,
        ensures
            r.wf(),
            r.current == max,
            r.max == max,
    {
        Health { current: max, max }
    }

    /// Add a signed delta (negative for damage, positive for heals)
    /// and clamp into `[0, max]`.  The clamp is atomic per delta: no
    /// out-of-range intermediate value is ever stored.
    pub fn apply(&mut self, delta: i64)
        requires
            old(self).wf(),
        ensures
            final(self).wf(),
            final(self).max == old(self).max,
            final(self).current == clamped(old(self).current as int, old(self).max as int, delta as int),
    {
        if delta >= 0 {
            if delta > self.max - self.current {
                self.current = self.max;
            } else {
                self.current = self.current + delta;
            }
        } else {
            if self.current + delta < 0 {
                self.current = 0;
            } else {
                self.current = self.current + delta;
            }
        }
    }
}

/// Clamp invariant: starting from any well-formed health pool, any
/// sequence of clamped deltas leaves `current` in `[0, max]`,
/// regardless of each delta's magnitude or sign.
pub proof fn lemma_health_clamp_sequence(current: int, max: int, deltas: Seq<int>)
    requires
        0 <= current <= max,
    ensures
        0 <= clamped_seq(current, max, deltas) <= max,
    decreases deltas.len(),
{
    if deltas.len() > 0 {
        lemma_health_clamp_sequence(clamped(current, max, deltas[0]), max, deltas.skip(1));
    }
}

/// What the death-resolution pass decides for one entity once all of
/// a tick's deltas have been applied.
#[derive(Clone, Copy, Debug, PartialEq, Eq, Structural)]
pub enum DeathOutcome {
    /// The entity stays in the simulation.
    Lives,
    /// The entity is removed before the tick ends; `bounty` is the
    /// gold credited to the ally economy for the kill.
    Removed { bounty: u64 },
}

/// Decide whether an entity dies this tick.  An entity dies exactly
/// when its health has reached zero and it is not flagged immortal;
/// an immortal entity's health can sit at zero without removal.
/// Killing an enemy pays the ally economy a fixed bounty.
pub fn resolve_death(health: &Health, immortal: bool, faction: Faction) -> (r: DeathOutcome)
    requires
        health.wf(),
    ensures
        r is Removed <==> (health.current == 0 && !immortal),
        r is Removed ==> r->bounty == (if faction is Enemy { KILL_BOUNTY as int } else { 0int }),
{
    if health.current == 0 && !immortal {
        match faction {
            Faction::Enemy => DeathOutcome::Removed { bounty: KILL_BOUNTY },
            Faction::Ally => DeathOutcome::Removed { bounty: 0 },
        }
    } else {
        DeathOutcome::Lives
    }
}

/// Marker for entities that never die regardless of health (the
/// castles in the base ruleset).
#[derive(Clone, Copy, Debug, Default, PartialEq, Eq, Structural)]
pub struct Immortal;

/// A request to apply a signed health delta to one entity.  Emitted
/// by hit resolution; the host loop routes it to the entity's
/// [`Health`].  A delta aimed at an entity without health is a no-op
/// for the host, not an error.
#[derive(Clone, Copy, Debug, PartialEq, Eq, Structural)]
pub struct ApplyHealthDelta {
    pub entity: EntityId,
    pub delta: i64,
}

} // verus!
