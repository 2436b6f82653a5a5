//! The messages that the routines of one frame pass to one another.

use crate::components::{Damage, PointWorth, Shooter, ShotSpeed};
use crate::geometry::Vector;
use vstd::prelude::*;

verus! {

/// A shot was fired from `source` at `target`.
#[derive(Clone, Copy, Debug, PartialEq, Eq, Structural)]
pub struct ShootEvent {
    pub source: Vector,
    pub target: Vector,
    pub damage: Damage,
    pub shooter: Shooter,
    pub bullet_speed: ShotSpeed,
}

/// One of the four ways the player walks.
#[derive(Clone, Copy, Debug, PartialEq, Eq, Structural)]
pub enum MoveDirection {
    Up,
    Down,
    Left,
    Right,
}

/// The player is asked to walk one step.
#[derive(Clone, Copy, Debug, PartialEq, Eq, Structural)]
pub struct PlayerMoveEvent(pub MoveDirection);

/// The score goes up by what an enemy was worth.
#[derive(Clone, Copy, Debug, PartialEq, Eq, Structural)]
pub struct ScoreUpEvent(pub PointWorth);

/// The experience has reached the threshold of the next level.
#[derive(Clone, Copy, Debug, PartialEq, Eq, Structural)]
pub struct LevelUpEvent;

} // verus!
