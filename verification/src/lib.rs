//! Core simulation logic of a two-faction castle-siege skirmish game.
//!
//! Two castles continuously produce units that march toward each other,
//! fight on contact, and deal damage to castles and units until one
//! castle's health reaches zero.  This crate holds the verified core:
//! the attribute (health/death) system, hit/hurt collision resolution,
//! the unit behaviour state machine, the spawn queue and wave economy,
//! and the upgrade tech tree.
//!
//! The host game loop owns entity storage, rendering, input and the
//! broad-phase physics collaborator; it feeds this library plain values
//! (entity ids, positions, overlap reports, elapsed time) and applies
//! the decisions it gets back.
//!
//! All quantities are integers: time is counted in milliseconds, world
//! coordinates and velocities in milli-units (one thousandth of a world
//! unit), health in whole hit points.

pub mod attributes;
pub mod behaviour;
pub mod castle;
pub mod faction;
pub mod hit_detection;
pub mod timer;
pub mod units;
pub mod upgrade;
pub mod wave;
