//! The per-castle upgrade tech tree: level-gated modifiers to spawn
//! cooldown, shield and attack cooldown.
//!
//! Each upgrade tracks an integer level capped at a maximum.  Its
//! effect magnitude is linear in the level; its purchase cost is a
//! strictly increasing step function of the level.  Fractional
//! magnitudes are held in fixed point: per-mille (thousandths) for
//! the two cooldown fractions, tenths of a hit point for the shield.

use vstd::prelude::*;

use crate::castle::Gold;
use crate::timer::MAX_PERIOD_MS;

verus! {

/// Level cap shared by every upgrade.
pub const MAX_LEVEL: usize = 10;

/// Base spawn-queue cooldown before reduction, in milliseconds.
pub const BASE_SPAWN_PERIOD_MS: u64 = 2000;

/// Shortens the owning castle's spawn-queue cooldown.  Each level
/// takes five percent off the base period.
#[derive(Clone, Copy, Debug, Default, PartialEq, Eq, Structural)]
pub struct SpawnCooldownReduction {
    pub level: usize,
}

impl SpawnCooldownReduction {
    /// Cooldown reduction per level, in per-mille.
    pub const BASE_VALUE: u64 = 50;

    pub open spec fn spec_level(&self) -> usize {
        self.level
    }

    /// Well-formedness: the level never passes the cap.
    pub open spec fn wf(&self) -> bool {
        self.level <= MAX_LEVEL
    }

    /// The current level.
    pub fn level(&self) -> (r: usize)
        ensures
            r == self.spec_level(),
    {
        self.level
    }

    /// Raise the level by exactly one; fails (and changes nothing)
    /// exactly when the level is already at the cap.
    pub fn level_up(&mut self) -> (ok: bool)
        ensures
            ok == (old(self).spec_level() < MAX_LEVEL),
            ok ==> final(self).spec_level() == old(self).spec_level() + 1,
            !ok ==> *final(self) == *old(self),
            old(self).wf() ==> final(self).wf(),
    {
        if self.level < MAX_LEVEL {
            self.level = self.level + 1;
            true
        } else {
            false
        }
    }

    /// The price of the next level: five gold more at each level.
    pub fn cost(&self) -> (r: usize)
        requires
            self.wf(),
        ensures
            r == (self.spec_level() + 1) * 5,
    {
        (self.level + 1) * 5
    }

    /// The effect magnitude: the fraction taken off the spawn
    /// cooldown, in per-mille.
    pub fn get(&self) -> (r: u64)
        requires
            self.wf(),
        ensures
            r == self.spec_level() * Self::BASE_VALUE,
            r <= 500,
    {
        (self.level as u64) * Self::BASE_VALUE
    }
}

/// The spawn-queue period the owning castle should run at: the base
/// period scaled down by the reduction's current fraction.  Each
/// level shortens the two-second base by a tenth of a second.
pub fn spawn_queue_period_ms(reduction: &SpawnCooldownReduction) -> (r: u64)
    requires
        reduction.wf(),
    ensures
        r == BASE_SPAWN_PERIOD_MS * (1000 - reduction.spec_level() * SpawnCooldownReduction::BASE_VALUE) / 1000,
        0 < r <= MAX_PERIOD_MS,
{
    let permille: u64 = reduction.get();
    BASE_SPAWN_PERIOD_MS * (1000 - permille) / 1000
}

/// Flat armor added to each soldier's health.  Each level grants
/// twelve and a half hit points, held in tenths.
#[derive(Clone, Copy, Debug, Default, PartialEq, Eq, Structural)]
pub struct ShieldUpgrade {
    pub level: usize,
}

impl ShieldUpgrade {
    /// Shield granted per level, in tenths of a hit point.
    pub const BASE_VALUE: u64 = 125;

    pub open spec fn spec_level(&self) -> usize {
        self.level
    }

    /// Well-formedness: the level never passes the cap.
    pub open spec fn wf(&self) -> bool {
        self.level <= MAX_LEVEL
    }

    /// The current level.
    pub fn level(&self) -> (r: usize)
        ensures
            r == self.spec_level(),
    {
        self.level
    }

    /// Raise the level by exactly one; fails (and changes nothing)
    /// exactly when the level is already at the cap.
    pub fn level_up(&mut self) -> (ok: bool)
        ensures
            ok == (old(self).spec_level() < MAX_LEVEL),
            ok ==> final(self).spec_level() == old(self).spec_level() + 1,
            !ok ==> *final(self) == *old(self),
            old(self).wf() ==> final(self).wf(),
    {
        if self.level < MAX_LEVEL {
            self.level = self.level + 1;
            true
        } else {
            false
        }
    }

    /// The price of the next level: three gold more at each level.
    pub fn cost(&self) -> (r: usize)
        requires
            self.wf(),
        ensures
            r == (self.spec_level() + 1) * 3,
    {
        (self.level + 1) * 3
    }

    /// The effect magnitude: flat shield value, in tenths of a hit
    /// point.
    pub fn get(&self) -> (r: u64)
        requires
            self.wf(),
        ensures
            r == self.spec_level() * Self::BASE_VALUE,
    {
        (self.level as u64) * Self::BASE_VALUE
    }
}

/// Shortens the attack cooldown that re-arms a unit's hit box.  Each
/// level takes seven and a half percent off.
#[derive(Clone, Copy, Debug, Default, PartialEq, Eq, Structural)]
pub struct AttackCooldownUpgrade {
    pub level: usize,
}

impl AttackCooldownUpgrade {
    /// Cooldown reduction per level, in per-mille.
    pub const BASE_VALUE: u64 = 75;

    pub open spec fn spec_level(&self) -> usize {
        self.level
    }

    /// Well-formedness: the level never passes the cap.
    pub open spec fn wf(&self) -> bool {
        self.level <= MAX_LEVEL
    }

    /// The current level.
    pub fn level(&self) -> (r: usize)
        ensures
            r == self.spec_level(),
    {
        self.level
    }

    /// Raise the level by exactly one; fails (and changes nothing)
    /// exactly when the level is already at the cap.
    pub fn level_up(&mut self) -> (ok: bool)
        ensures
            ok == (old(self).spec_level() < MAX_LEVEL),
            ok ==> final(self).spec_level() == old(self).spec_level() + 1,
            !ok ==> *final(self) == *old(self),
            old(self).wf() ==> final(self).wf(),
    {
        if self.level < MAX_LEVEL {
            self.level = self.level + 1;
            true
        } else {
            false
        }
    }

    /// The price of the next level: three gold more at each level.
    pub fn cost(&self) -> (r: usize)
        requires
            self.wf(),
        ensures
            r == (self.spec_level() + 1) * 3,
    {
        (self.level + 1) * 3
    }

    /// The effect magnitude: the fraction taken off the attack
    /// cooldown, in per-mille.
    pub fn get(&self) -> (r: u64)
        requires
            self.wf(),
        ensures
            r == self.spec_level() * Self::BASE_VALUE,
    {
        (self.level as u64) * Self::BASE_VALUE
    }
}

/// The player's purchase path for the spawn-cooldown upgrade: the
/// purchase succeeds exactly when the balance covers the current cost
/// and the upgrade is below the cap; on success the level rises by
/// one and exactly the cost is debited, otherwise nothing changes.
pub fn purchase_spawn_cooldown_reduction(
    upgrade: &mut SpawnCooldownReduction,
    gold: &mut Gold,
) -> (ok: bool)
    requires
        old(upgrade).wf(),
    ensures
        final(upgrade).wf(),
        ok == (old(gold).0 >= (old(upgrade).spec_level() + 1) * 5 && old(upgrade).spec_level()
            < MAX_LEVEL),
        ok ==> final(upgrade).spec_level() == old(upgrade).spec_level() + 1 && final(gold).0 == old(
            gold,
        ).0 - (old(upgrade).spec_level() + 1) * 5,
        !ok ==> *final(upgrade) == *old(upgrade) && final(gold).0 == old(gold).0,
{
    let cost = upgrade.cost();
    if gold.0 >= cost && upgrade.level_up() {
        gold.0 = gold.0 - cost;
        true
    } else {
        false
    }
}

/// The player's purchase path for the shield upgrade; same gating as
/// the spawn-cooldown purchase, at the shield's own price.
pub fn purchase_shield_upgrade(upgrade: &mut ShieldUpgrade, gold: &mut Gold) -> (ok: bool)
    requires
        old(upgrade).wf(),
    ensures
        final(upgrade).wf(),
        ok == (old(gold).0 >= (old(upgrade).spec_level() + 1) * 3 && old(upgrade).spec_level()
            < MAX_LEVEL),
        ok ==> final(upgrade).spec_level() == old(upgrade).spec_level() + 1 && final(gold).0 == old(
            gold,
        ).0 - (old(upgrade).spec_level() + 1) * 3,
        !ok ==> *final(upgrade) == *old(upgrade) && final(gold).0 == old(gold).0,
{
    let cost = upgrade.cost();
    if gold.0 >= cost && upgrade.level_up() {
        gold.0 = gold.0 - cost;
        true
    } else {
        false
    }
}

/// The player's purchase path for the attack-cooldown upgrade; same
/// gating as the spawn-cooldown purchase, at this upgrade's price.
pub fn purchase_attack_cooldown_upgrade(
    upgrade: &mut AttackCooldownUpgrade,
    gold: &mut Gold,
) -> (ok: bool)
    requires
        old(upgrade).wf(),
    ensures
        final(upgrade).wf(),
        ok == (old(gold).0 >= (old(upgrade).spec_level() + 1) * 3 && old(upgrade).spec_level()
            < MAX_LEVEL),
        ok ==> final(upgrade).spec_level() == old(upgrade).spec_level() + 1 && final(gold).0 == old(
            gold,
        ).0 - (old(upgrade).spec_level() + 1) * 3,
        !ok ==> *final(upgrade) == *old(upgrade) && final(gold).0 == old(gold).0,
{
    let cost = upgrade.cost();
    if gold.0 >= cost && upgrade.level_up() {
        gold.0 = gold.0 - cost;
        true
    } else {
        false
    }
}

} // verus!
