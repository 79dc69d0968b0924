//! Factions and the collision-layer pairing that keeps a faction's
//! attacks from striking its own side.

use vstd::prelude::*;

verus! {

/// The two sides of a match.  Fixed 1:1 opposite mapping; immutable
/// once assigned to an entity.
#[derive(Clone, Copy, Debug, PartialEq, Eq, Structural)]
pub enum Faction {
    Ally,
    Enemy,
}

/// Collision layers for the hit/hurt sensor pairing.  An entity's hurt
/// layer is only ever paired with the opposing faction's hit layer, so
/// friendly fire is excluded by construction.
#[derive(Clone, Copy, Debug, PartialEq, Eq, Structural)]
pub enum SensorLayers {
    AllyHurt,
    AllyHit,
    EnemyHurt,
    EnemyHit,
}

impl Faction {
    /// The opposing faction.
    pub fn opposite(&self) -> (r: Self)
        ensures
            r == (match self {
                Faction::Ally => Faction::Enemy,
                Faction::Enemy => Faction::Ally,
            }),
    {
        match self {
            Faction::Ally => Faction::Enemy,
            Faction::Enemy => Faction::Ally,
        }
    }

    /// The layer a damageable surface of this faction belongs to.
    pub fn hurt_layer(&self) -> (r: SensorLayers)
        ensures
            r == (match self {
                Faction::Ally => SensorLayers::AllyHurt,
                Faction::Enemy => SensorLayers::EnemyHurt,
            }),
    {
        match self {
            Faction::Ally => SensorLayers::AllyHurt,
            Faction::Enemy => SensorLayers::EnemyHurt,
        }
    }

    /// The layer an attack sensor of this faction belongs to.
    pub fn hit_layer(&self) -> (r: SensorLayers)
        ensures
            r == (match self {
                Faction::Ally => SensorLayers::AllyHit,
                Faction::Enemy => SensorLayers::EnemyHit,
            }),
    {
        match self {
            Faction::Ally => SensorLayers::AllyHit,
            Faction::Enemy => SensorLayers::EnemyHit,
        }
    }
}

} // verus!
