//! The entities of the game as they are when they appear.

use crate::clock::{
    duration_nanos, span_from_nanos, stopwatch_state, timer_new, timer_state, watch_new,
    watch_tick, StopwatchState, TimerState,
};
use crate::components::{
    Bullet, BulletLifetimeTimer, Color, CrumbCollectRadius, Damage, Enemy, ExpCrumb, ExpGain,
    Health, MyDirection, Player, PlayerLevel, PointWorth, ReloadStopwatch, ReloadTime,
    RemoveOnReset, Shooter, ShotSpeed, Speed, Sprite, Transform, Visibility,
};
use crate::bounding::Aabb2d;
use crate::geometry::Vector;
use bevy::time::TimerMode;
use vstd::prelude::*;

verus! {

/// What every drawn entity has: a sprite, a place and a visibility.
#[derive(Clone, Copy, Debug, PartialEq, Eq, Structural)]
pub struct SpriteBundle {
    pub sprite: Sprite,
    pub transform: Transform,
    pub visibility: Visibility,
}

/// What an entity needs to fire.
#[derive(Clone, Debug)]
pub struct ShooterBundle {
    pub damage: Damage,
    pub since_last_reload: ReloadStopwatch,
    pub reload_time: ReloadTime,
    pub shot_speed: ShotSpeed,
}

/// An enemy that attacks by contact.
#[derive(Clone, Copy, Debug, PartialEq, Eq, Structural)]
pub struct EnemyBundle {
    pub speed: Speed,
    pub marker: Enemy,
    pub shooter_marker: Shooter,
    pub hp: Health,
    pub sprite: SpriteBundle,
    pub remove_on_reset: RemoveOnReset,
    pub point_worth: PointWorth,
}

/// An enemy that also fires at the player.
#[derive(Clone, Debug)]
pub struct ShooterEnemyBundle {
    pub enemy: EnemyBundle,
    pub shooter: ShooterBundle,
}

/// The two kinds of enemy.
#[derive(Clone, Debug)]
pub enum EnemyVariant {
    Basic(EnemyBundle),
    Shooter(ShooterEnemyBundle),
}

/// The player.
#[derive(Clone, Debug)]
pub struct PlayerBundle {
    pub speed: Speed,
    pub marker: Player,
    pub hp: Health,
    pub shooter_marker: Shooter,
    pub shooter: ShooterBundle,
    pub level: PlayerLevel,
    pub sprite: SpriteBundle,
    pub remove_on_reset: RemoveOnReset,
    pub collect_radius: CrumbCollectRadius,
}

/// A bullet in flight.
#[derive(Clone, Debug)]
pub struct BulletBundle {
    pub speed: Speed,
    pub marker: Bullet,
    pub direction: MyDirection,
    pub damage: Damage,
    pub lifetime: BulletLifetimeTimer,
    pub sprite: SpriteBundle,
    pub shooter: Shooter,
    pub remove_on_reset: RemoveOnReset,
}

/// An experience pickup.
#[derive(Clone, Copy, Debug, PartialEq, Eq, Structural)]
pub struct ExpCrumbBundle {
    pub sprite: SpriteBundle,
    pub gain: ExpGain,
    pub remove_on_reset: RemoveOnReset,
    pub crumb: ExpCrumb,
}

impl SpriteBundle {
    /// A visible square of one colour at `position`.
    pub open spec fn square(color: Color, side: i64, position: Vector) -> SpriteBundle {
        SpriteBundle {
            sprite: Sprite::square(color, side),
            transform: Transform { translation: position },
            visibility: Visibility::Visible,
        }
    }

    /// The entity has a hitbox inside the world.
    pub open spec fn wf(self) -> bool {
        self.sprite.has_box() && self.transform.translation.in_world()
    }

    /// The hitbox of the entity: its sprite's size round its place.
    pub open spec fn hitbox(self) -> Aabb2d
        recommends
            self.sprite.custom_size is Some,
    {
        Aabb2d::of_sprite(self.transform.translation, self.sprite.custom_size->0)
    }

    /// The hitbox of the entity.
    pub fn bounding_box(&self) -> (aabb: Aabb2d)
        requires
            self.wf(),
        ensures
            aabb == self.hitbox(),
            aabb.wf(),
    {
        match self.sprite.custom_size {
            Some(size) => Aabb2d::from_sprite(self.transform.translation, size),
            None => Aabb2d::from_sprite(self.transform.translation, Vector { x: 0, y: 0 }),
        }
    }
}

impl ShooterBundle {
    /// A shooter that may fire at once: the stopwatch already shows the
    /// reload time.
    pub open spec fn is_ready(self, damage: i32, reload_nanos: nat, shot_speed: u32) -> bool {
        &&& self.damage == Damage(damage)
        &&& stopwatch_state(self.since_last_reload.0) == (StopwatchState {
            elapsed: reload_nanos,
            paused: false,
        })
        &&& duration_nanos(self.reload_time.0) == reload_nanos
        &&& self.shot_speed == ShotSpeed(shot_speed)
    }

    /// A shooter with the stopwatch wound up to the reload time.
    pub fn ready(damage: i32, reload_millis: u32, shot_speed: u32) -> (shooter: ShooterBundle)
        ensures
            shooter.is_ready(damage, reload_millis as nat * 1_000_000, shot_speed),
    {
        let reload = span_from_nanos(reload_millis as u64 * 1_000_000);
        let mut watch = watch_new();
        watch_tick(&mut watch, &reload);
        ShooterBundle {
            damage: Damage(damage),
            since_last_reload: ReloadStopwatch(watch),
            reload_time: ReloadTime(reload),
            shot_speed: ShotSpeed(shot_speed),
        }
    }
}

impl EnemyBundle {
    /// The plain enemy: slow, ten hit points, worth five points, a blue
    /// square of fifty units.
    pub open spec fn basic() -> EnemyBundle {
        EnemyBundle {
            speed: Speed(100_000),
            marker: Enemy,
            shooter_marker: Shooter::Enemy,
            hp: Health(10),
            sprite: SpriteBundle::square(Color::blue(), 50_000, Vector { x: 0, y: 0 }),
            remove_on_reset: RemoveOnReset,
            point_worth: PointWorth(5),
        }
    }

    /// The body of the enemy that fires: twenty hit points, worth ten
    /// points, purple.
    pub open spec fn ranged() -> EnemyBundle {
        EnemyBundle {
            hp: Health(20),
            point_worth: PointWorth(10),
            sprite: SpriteBundle::square(Color::purple(), 50_000, Vector { x: 0, y: 0 }),
            ..EnemyBundle::basic()
        }
    }

    /// The same enemy at another place.
    pub open spec fn placed(self, transform: Transform) -> EnemyBundle {
        EnemyBundle { sprite: SpriteBundle { transform, ..self.sprite }, ..self }
    }

    /// The same enemy at another place.
    pub fn with_transform(self, transform: Transform) -> (enemy: EnemyBundle)
        ensures
            enemy == self.placed(transform),
    {
        EnemyBundle { sprite: SpriteBundle { transform, ..self.sprite }, ..self }
    }
}

impl Default for EnemyBundle {
    /// The plain enemy at the origin.
    fn default() -> (enemy: EnemyBundle)
        ensures
            enemy == EnemyBundle::basic(),
    {
        EnemyBundle {
            speed: Speed(100_000),
            marker: Enemy,
            shooter_marker: Shooter::Enemy,
            hp: Health(10),
            sprite: SpriteBundle {
                sprite: Sprite {
                    color: Color::rgb(0, 0, 255),
                    custom_size: Some(Vector::new(50_000, 50_000)),
                },
                transform: Transform { translation: Vector::new(0, 0) },
                visibility: Visibility::Visible,
            },
            remove_on_reset: RemoveOnReset,
            point_worth: PointWorth(5),
        }
    }
}

impl ShooterEnemyBundle {
    /// The enemy that fires, as it appears: five damage a shot, two seconds
    /// between shots, and ready to fire.
    pub open spec fn is_fresh(self) -> bool {
        &&& self.enemy == EnemyBundle::ranged()
        &&& self.shooter.is_ready(5, 2_000_000_000, 300_000)
    }

    /// The same enemy at another place.
    pub fn with_transform(self, transform: Transform) -> (placed: ShooterEnemyBundle)
        ensures
            placed.enemy == self.enemy.placed(transform),
            placed.shooter == self.shooter,
    {
        ShooterEnemyBundle { enemy: self.enemy.with_transform(transform), shooter: self.shooter }
    }
}

impl Default for ShooterEnemyBundle {
    /// The enemy that fires, at the origin.
    fn default() -> (enemy: ShooterEnemyBundle)
        ensures
            enemy.is_fresh(),
    {
        let body = EnemyBundle::default();
        ShooterEnemyBundle {
            enemy: EnemyBundle {
                hp: Health(20),
                point_worth: PointWorth(10),
                sprite: SpriteBundle {
                    sprite: Sprite {
                        color: Color::rgb(128, 0, 128),
                        custom_size: Some(Vector::new(50_000, 50_000)),
                    },
                    ..body.sprite
                },
                ..body
            },
            shooter: ShooterBundle::ready(5, 2_000, 300_000),
        }
    }
}

impl EnemyVariant {
    /// The body of the enemy, whichever kind it is.
    pub open spec fn body(self) -> EnemyBundle {
        match self {
            EnemyVariant::Basic(enemy) => enemy,
            EnemyVariant::Shooter(enemy) => enemy.enemy,
        }
    }
}

impl PlayerBundle {
    /// The player at the start of a session: thirty hit points at the
    /// origin, level one with twenty experience to the next, four shots a
    /// second and ready to fire.
    pub open spec fn is_fresh(self) -> bool {
        &&& self.speed == Speed(125_000)
        &&& self.hp == Health(30)
        &&& self.shooter_marker == Shooter::Player
        &&& self.shooter.is_ready(5, 250_000_000, 500_000)
        &&& self.level == (PlayerLevel { level: 1, next_level_delta: ExpGain(20) })
        &&& self.sprite == SpriteBundle::square(Color::green(), 50_000, Vector { x: 0, y: 0 })
        &&& self.collect_radius == CrumbCollectRadius(200_000)
    }
}

impl Default for PlayerBundle {
    /// The player at the start of a session.
    fn default() -> (player: PlayerBundle)
        ensures
            player.is_fresh(),
    {
        PlayerBundle {
            speed: Speed(125_000),
            marker: Player,
            hp: Health(30),
            shooter_marker: Shooter::Player,
            shooter: ShooterBundle::ready(5, 250, 500_000),
            level: PlayerLevel { level: 1, next_level_delta: ExpGain(20) },
            sprite: SpriteBundle {
                sprite: Sprite {
                    color: Color::rgb(0, 255, 0),
                    custom_size: Some(Vector::new(50_000, 50_000)),
                },
                transform: Transform { translation: Vector::new(0, 0) },
                visibility: Visibility::Visible,
            },
            remove_on_reset: RemoveOnReset,
            collect_radius: CrumbCollectRadius(200_000),
        }
    }
}

impl BulletBundle {
    /// A bullet as it leaves: a red square of ten units at `position`, with
    /// twenty seconds to fly at three hundred units a second.
    pub open spec fn is_fired(
        self,
        position: Vector,
        direction: Vector,
        damage: Damage,
        shooter: Shooter,
    ) -> bool {
        &&& self.speed == Speed(300_000)
        &&& self.direction == MyDirection(direction)
        &&& self.damage == damage
        &&& timer_state(self.lifetime.0) == TimerState::fresh(20_000_000_000, false)
        &&& self.sprite == SpriteBundle::square(Color::red(), 10_000, position)
        &&& self.shooter == shooter
    }

    /// A new bullet: see `is_fired`.
    pub fn fired(position: Vector, direction: Vector, damage: Damage, shooter: Shooter) -> (bullet:
        BulletBundle)
        ensures
            bullet.is_fired(position, direction, damage, shooter),
    {
        let life = span_from_nanos(20_000_000_000);
        BulletBundle {
            speed: Speed(300_000),
            marker: Bullet,
            direction: MyDirection(direction),
            damage,
            lifetime: BulletLifetimeTimer(timer_new(&life, TimerMode::Once)),
            sprite: SpriteBundle {
                sprite: Sprite {
                    color: Color::rgb(255, 0, 0),
                    custom_size: Some(Vector::new(10_000, 10_000)),
                },
                transform: Transform { translation: position },
                visibility: Visibility::Visible,
            },
            shooter,
            remove_on_reset: RemoveOnReset,
        }
    }
}

impl Default for BulletBundle {
    /// A bullet of the player at the origin that flies to the right.
    fn default() -> (bullet: BulletBundle)
        ensures
            bullet.is_fired(
                Vector { x: 0, y: 0 },
                Vector { x: 1_000, y: 0 },
                Damage(5),
                Shooter::Player,
            ),
    {
        BulletBundle::fired(Vector::new(0, 0), Vector::new(1_000, 0), Damage(5), Shooter::Player)
    }
}

impl ExpCrumbBundle {
    /// A pickup as it is dropped: a yellow square of ten units that gives
    /// five experience.
    pub open spec fn dropped_at(transform: Transform) -> ExpCrumbBundle {
        ExpCrumbBundle {
            sprite: SpriteBundle::square(Color::yellow(), 10_000, transform.translation),
            gain: ExpGain(5),
            remove_on_reset: RemoveOnReset,
            crumb: ExpCrumb,
        }
    }

    /// A pickup at the given place.
    pub fn with_transform(transform: Transform) -> (crumb: ExpCrumbBundle)
        ensures
            crumb == ExpCrumbBundle::dropped_at(transform),
    {
        ExpCrumbBundle {
            sprite: SpriteBundle {
                sprite: Sprite {
                    color: Color::rgb(255, 255, 0),
                    custom_size: Some(Vector::new(10_000, 10_000)),
                },
                transform,
                visibility: Visibility::Visible,
            },
            gain: ExpGain(5),
            remove_on_reset: RemoveOnReset,
            crumb: ExpCrumb,
        }
    }
}

impl Default for ExpCrumbBundle {
    /// A pickup at the origin.
    fn default() -> (crumb: ExpCrumbBundle)
        ensures
            crumb == ExpCrumbBundle::dropped_at(Transform { translation: Vector { x: 0, y: 0 } }),
    {
        ExpCrumbBundle::with_transform(Transform { translation: Vector::new(0, 0) })
    }
}

} // verus!
