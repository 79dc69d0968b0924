//! The enemy wave scheduler: periodic, escalating batches of enemy
//! units injected into the enemy castle's spawn queue.
//!
//! On the wave timer elapsing — gated on the enemy queue being empty,
//! so the queue cannot grow without bound — the scheduler pushes a
//! batch proportional to the wave level, raises the level, and every
//! second level grants the enemy castle's upgrades free level-ups to
//! keep its difficulty curve proportional to match duration.

use vstd::prelude::*;

use crate::castle::SpawnQueue;
use crate::timer::{TickTimer, MAX_TICK_MS};
use crate::units::UnitKind;
use crate::upgrade::{AttackCooldownUpgrade, ShieldUpgrade, SpawnCooldownReduction, MAX_LEVEL};

verus! {

/// Wave timer period, in milliseconds.
pub const WAVE_PERIOD_MS: u64 = 5000;

/// Soldiers enqueued per wave level.
pub const UNITS_PER_LEVEL: u32 = 30;

/// Every this many levels, the enemy's upgrades get free level-ups.
pub const UPGRADE_GRANT_INTERVAL: u32 = 2;

/// Cap on the wave level, so batch sizes stay far below any machine
/// limit (a match reaching it would have run for months).
pub const WAVE_LEVEL_CAP: u32 = 1_000_000;

/// An upgrade level after two free level-ups, each a no-op at the
/// cap.
pub open spec fn granted_level(level: usize) -> usize {
    if level + 2 <= MAX_LEVEL {
        (level + 2) as usize
    } else {
        MAX_LEVEL
    }
}

/// The escalating wave state: the current level and the periodic
/// timer that releases the next batch.
#[derive(Clone, Copy, Debug, PartialEq, Eq, Structural)]
pub struct Wave {
    pub level: u32,
    pub timer: TickTimer,
}

impl Wave {
    /// Well-formedness: the level starts at one and stays within the
    /// cap; the timer is a well-formed repeating timer.
    pub open spec fn wf(&self) -> bool {
        &&& 1 <= self.level <= WAVE_LEVEL_CAP
        &&& self.timer.wf()
        &&& self.timer.repeating
    }
}

impl Default for Wave {
    /// A fresh match's wave state: level one, five-second timer.
    fn default() -> (r: Self)
        ensures
            r.wf(),
            r.level == 1,
            r.timer.period_ms == WAVE_PERIOD_MS,
            r.timer.elapsed_ms == 0,
    {
        Wave { level: 1, timer: TickTimer::repeating(WAVE_PERIOD_MS) }
    }
}

impl Wave {
    /// Advance the wave by one tick against the enemy castle's spawn
    /// queue and upgrades.  While the queue is non-empty nothing
    /// moves (not even the timer).  When the timer elapses on an
    /// empty queue, the queue receives `UNITS_PER_LEVEL * level`
    /// soldiers, the level rises by one (saturating at the cap), and
    /// on every level divisible by `UPGRADE_GRANT_INTERVAL` each
    /// upgrade is granted two free level-ups.
    pub fn tick(
        &mut self,
        dt: u64,
        queue: &mut SpawnQueue,
        spawn_cooldown: &mut SpawnCooldownReduction,
        shield: &mut ShieldUpgrade,
        attack_cooldown: &mut AttackCooldownUpgrade,
    ) -> (released: bool)
        requires
            old(self).wf(),
            old(queue).wf(),
            old(spawn_cooldown).wf(),
            old(shield).wf(),
            old(attack_cooldown).wf(),
            dt <= MAX_TICK_MS,
        ensures
            final(self).wf(),
            final(queue).wf(),
            final(spawn_cooldown).wf(),
            final(shield).wf(),
            final(attack_cooldown).wf(),
            final(queue).timer == old(queue).timer,
            released == (old(queue).units@.len() == 0 && old(self).timer.spec_fires(dt)),
            old(queue).units@.len() > 0 ==> *final(self) == *old(self)
                && final(queue).units@ == old(queue).units@
                && *final(spawn_cooldown) == *old(spawn_cooldown)
                && *final(shield) == *old(shield)
                && *final(attack_cooldown) == *old(attack_cooldown),
            old(queue).units@.len() == 0 ==> final(self).timer.elapsed_ms
                == (old(self).timer.elapsed_ms + dt) % (old(self).timer.period_ms as int)
                && final(self).timer.period_ms == old(self).timer.period_ms,
            !released && old(queue).units@.len() == 0 ==> final(self).level == old(self).level
                && final(queue).units@ == old(queue).units@
                && *final(spawn_cooldown) == *old(spawn_cooldown)
                && *final(shield) == *old(shield)
                && *final(attack_cooldown) == *old(attack_cooldown),
            released ==> {
                &&& final(queue).units@ == Seq::new(
                    (UNITS_PER_LEVEL * old(self).level) as nat,
                    |i: int| UnitKind::Soldier,
                )
                &&& final(self).level == if old(self).level < WAVE_LEVEL_CAP {
                    old(self).level + 1
                } else {
                    old(self).level as int
                }
                &&& if final(self).level % UPGRADE_GRANT_INTERVAL == 0 {
                    &&& final(spawn_cooldown).spec_level()
                        == granted_level(old(spawn_cooldown).spec_level())
                    &&& final(shield).spec_level() == granted_level(old(shield).spec_level())
                    &&& final(attack_cooldown).spec_level()
                        == granted_level(old(attack_cooldown).spec_level())
                } else {
                    &&& *final(spawn_cooldown) == *old(spawn_cooldown)
                    &&& *final(shield) == *old(shield)
                    &&& *final(attack_cooldown) == *old(attack_cooldown)
                }
            },
    {
        if !queue.is_empty() {
            return false;
        }
        if !self.timer.tick(dt) {
            return false;
        }
        let batch: u32 = UNITS_PER_LEVEL * self.level;
        let mut pushed: u32 = 0;
        while pushed < batch
            invariant
                pushed <= batch,
                queue.wf(),
                queue.timer == old(queue).timer,
                queue.units@ == old(queue).units@ + Seq::new(
                    pushed as nat,
                    |i: int| UnitKind::Soldier,
                ),
            decreases batch - pushed,
        {
            queue.push_kind(UnitKind::Soldier);
            proof {
                assert((old(queue).units@ + Seq::new(pushed as nat, |i: int| UnitKind::Soldier)).push(
                    UnitKind::Soldier,
                ) =~= old(queue).units@ + Seq::new(
                    (pushed + 1) as nat,
                    |i: int| UnitKind::Soldier,
                ));
            }
            pushed = pushed + 1;
        }
        proof {
            assert(old(queue).units@ + Seq::new((UNITS_PER_LEVEL * old(self).level) as nat, |i: int| UnitKind::Soldier)
                =~= Seq::new((UNITS_PER_LEVEL * old(self).level) as nat, |i: int| UnitKind::Soldier));
        }
        if self.level < WAVE_LEVEL_CAP {
            self.level = self.level + 1;
        }
        if self.level % UPGRADE_GRANT_INTERVAL == 0 {
            spawn_cooldown.level_up();
            spawn_cooldown.level_up();
            shield.level_up();
            shield.level_up();
            attack_cooldown.level_up();
            attack_cooldown.level_up();
        }
        true
    }
}

} // verus!
