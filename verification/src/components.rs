//! The attribute records that entities are made of.

use crate::clock::{duration_nanos, timer_state, TimerState};
use crate::geometry::{clamp, delta_of, step_of, Vector};
use bevy::time::{Stopwatch, Timer};
use std::time::Duration;
use vstd::prelude::*;

verus! {

/// Hit points taken off a target by one hit.
#[derive(Clone, Copy, Debug, PartialEq, Eq, Structural)]
pub struct Damage(pub i32);

/// Movement rate, in thousandths of a world unit per second.
#[derive(Clone, Copy, Debug, PartialEq, Eq, Structural)]
pub struct Speed(pub u32);

/// The rate at which a shooter's bullets leave, in thousandths per second.
#[derive(Clone, Copy, Debug, PartialEq, Eq, Structural)]
pub struct ShotSpeed(pub u32);

/// Time since a shooter last fired.
#[derive(Clone, Debug)]
pub struct ReloadStopwatch(pub Stopwatch);

/// Time a shooter needs between two shots.
#[derive(Clone, Copy, Debug)]
pub struct ReloadTime(pub Duration);

/// A length in thousandths of a world unit.
#[derive(Clone, Copy, Debug, PartialEq, Eq, Structural)]
pub struct Distance(pub i64);

/// A direction: a vector of length `UNIT`, or the zero vector.
#[derive(Clone, Copy, Debug, PartialEq, Eq, Structural)]
pub struct MyDirection(pub Vector);

/// A knockback under way.
#[derive(Clone, Copy, Debug, PartialEq, Eq, Structural)]
pub struct Pushed {
    pub distance: Distance,
    pub direction: MyDirection,
    pub speed: Speed,
}

/// Protection from contact damage for a while, shown by blinking.
#[derive(Clone, Debug)]
pub struct Invulnerable {
    pub blink_timer: Timer,
    pub invuln_timer: Timer,
}

/// The side an entity fights on; bullets carry the side of whoever fired them.
#[derive(Clone, Copy, Debug, PartialEq, Eq, Structural)]
pub enum Shooter {
    Player,
    Enemy,
}

/// A colour, one byte per channel.
#[derive(Clone, Copy, Debug, PartialEq, Eq, Structural)]
pub struct Color {
    pub red: u8,
    pub green: u8,
    pub blue: u8,
}

/// Whether an entity is drawn.
#[derive(Clone, Copy, Debug, PartialEq, Eq, Structural)]
pub enum Visibility {
    Inherited,
    Hidden,
    Visible,
}

/// What is drawn for an entity; a sprite with a size also has a hitbox.
#[derive(Clone, Copy, Debug, PartialEq, Eq, Structural)]
pub struct Sprite {
    pub color: Color,
    pub custom_size: Option<Vector>,
}

/// Where an entity is.
#[derive(Clone, Copy, Debug, PartialEq, Eq, Structural)]
pub struct Transform {
    pub translation: Vector,
}

/// The red flash after a hit, and the colour to go back to.
#[derive(Clone, Debug)]
pub struct HitBlinkTimer {
    pub return_to: Color,
    pub timer: Timer,
}

/// Hit points; they may go below zero.
#[derive(Clone, Copy, Debug, PartialEq, Eq, Structural)]
pub struct Health(pub i32);

/// Marks an entity that a reset of the session removes.
#[derive(Clone, Copy, Debug, PartialEq, Eq, Structural)]
pub struct RemoveOnReset;

/// The score an enemy is worth.
#[derive(Clone, Copy, Debug, PartialEq, Eq, Structural)]
pub struct PointWorth(pub u32);

/// Marks an entity that is removed at the next cleanup.
#[derive(Clone, Copy, Debug, PartialEq, Eq, Structural)]
pub struct Dead;

/// Marks the camera that follows the game.
#[derive(Clone, Copy, Debug, PartialEq, Eq, Structural)]
pub struct MainCamera;

/// Marks an enemy.
#[derive(Clone, Copy, Debug, PartialEq, Eq, Structural)]
pub struct Enemy;

/// How long a bullet still has to fly.
#[derive(Clone, Debug)]
pub struct BulletLifetimeTimer(pub Timer);

/// Marks a bullet.
#[derive(Clone, Copy, Debug, PartialEq, Eq, Structural)]
pub struct Bullet;

/// Counts down to the next enemy.
#[derive(Clone, Debug)]
pub struct EnemySpawnTimer(pub Timer);

/// Marks the player.
#[derive(Clone, Copy, Debug, PartialEq, Eq, Structural)]
pub struct Player;

/// Experience: what a pickup gives, or what a level costs.
#[derive(Clone, Copy, Debug, PartialEq, Eq, Structural)]
pub struct ExpGain(pub u32);

/// Marks an experience pickup.
#[derive(Clone, Copy, Debug, PartialEq, Eq, Structural)]
pub struct ExpCrumb;

/// How far the player reaches for pickups, in thousandths of a world unit.
#[derive(Clone, Copy, Debug, PartialEq, Eq, Structural)]
pub struct CrumbCollectRadius(pub i64);

/// The player's level and the experience the next one costs.
#[derive(Clone, Copy, Debug, PartialEq, Eq, Structural)]
pub struct PlayerLevel {
    pub level: u32,
    pub next_level_delta: ExpGain,
}

/// The experience gathered since the last level.
#[derive(Clone, Copy, Debug, PartialEq, Eq, Structural)]
pub struct PlayerExperience(pub u32);

/// The score of the session.
#[derive(Clone, Copy, Debug, PartialEq, Eq, Structural)]
pub struct PlayerScore(pub u32);

/// The colours of the game.
impl Color {
    pub open spec fn red() -> Color {
        Color { red: 255, green: 0, blue: 0 }
    }

    pub open spec fn green() -> Color {
        Color { red: 0, green: 255, blue: 0 }
    }

    pub open spec fn blue() -> Color {
        Color { red: 0, green: 0, blue: 255 }
    }

    pub open spec fn purple() -> Color {
        Color { red: 128, green: 0, blue: 128 }
    }

    pub open spec fn yellow() -> Color {
        Color { red: 255, green: 255, blue: 0 }
    }
}

impl Color {
    /// The colour with these three channels.
    pub fn rgb(red: u8, green: u8, blue: u8) -> (color: Color)
        ensures
            color == (Color { red, green, blue }),
    {
        Color { red, green, blue }
    }
}

impl Sprite {
    /// The sprite has a size that fits the world, so it has a hitbox.
    pub open spec fn has_box(self) -> bool {
        self.custom_size is Some && self.custom_size->0.is_size()
    }

    /// A sprite of one colour, `side` thousandths wide and high.
    pub open spec fn square(color: Color, side: i64) -> Sprite {
        Sprite { color, custom_size: Some(Vector { x: side, y: side }) }
    }
}

/// The movement of one frame: `direction` times `speed` times the time gone
/// by, each component rounded toward zero and held to the span of the world.
pub fn get_delta(direction: &MyDirection, speed: &Speed, time: &Duration) -> (delta: Vector)
    requires
        direction.0.is_direction(),
    ensures
        delta == delta_of(direction.0, speed.0 as nat, duration_nanos(*time)),
        delta.in_span(),
{
    step_of(&direction.0, speed.0, time)
}

/// Hit points after losing `loss`, which stop at the least and the greatest
/// number they can hold.
pub open spec fn hit_points_after(hp: int, loss: int) -> int {
    clamp(hp - loss, i32::MIN as int, i32::MAX as int)
}

/// Takes `loss` off the hit points.
pub fn lose_hit_points(hp: &mut Health, loss: i32)
    ensures
        final(hp).0 == hit_points_after(old(hp).0 as int, loss as int),
{
    let lowered: i64 = hp.0 as i64 - loss as i64;
    if lowered < i32::MIN as i64 {
        hp.0 = i32::MIN;
    } else if lowered > i32::MAX as i64 {
        hp.0 = i32::MAX;
    } else {
        hp.0 = lowered as i32;
    }
}

impl Invulnerable {
    /// The two timers as they are when the protection starts: two seconds in
    /// all, with a blink every tenth of a second.
    pub open spec fn starts(self) -> bool {
        &&& timer_state(self.blink_timer) == TimerState::fresh(100_000_000, true)
        &&& timer_state(self.invuln_timer) == TimerState::fresh(2_000_000_000, false)
    }
}

} // verus!
