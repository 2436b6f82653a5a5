//! What enemies do each frame: steer at the player, fire, and hurt on contact.

use crate::bounding::Aabb2d;
use crate::bundles::{EnemyBundle, EnemyVariant, ShooterEnemyBundle, SpriteBundle};
use crate::clock::{
    duration_nanos, span_from_nanos, span_nanos, stopwatch_state, timer_just_finished,
    timer_new, timer_state, timer_tick, TimerState,
};
use crate::components::{
    get_delta, hit_points_after, lose_hit_points, Damage, Distance, EnemySpawnTimer, Health,
    MyDirection, Pushed, ReloadStopwatch, ReloadTime, Shooter, ShotSpeed, Speed, Sprite,
    Transform,
};
use crate::events::ShootEvent;
use crate::fire_control::{after_trigger, cooldown_over, fire_control};
use crate::geometry::{
    clamp, delta_of, floor_sqrt, get_direction, isqrt, lemma_floor_sqrt_bounds, toward_zero,
    Vector, UNIT, WORLD_LIMIT,
};
use crate::random::roll_in_range;
use bevy::time::TimerMode;
use std::time::Duration;
use vstd::prelude::*;

verus! {

/// Nanoseconds in which an enemy may turn by a thousandth of a radian: it
/// turns ten radians a second at most.
pub const NANOS_PER_TURN_UNIT: u128 = 100_000;

/// Hit points that touching an enemy costs the player.
pub const CONTACT_DAMAGE: i32 = 5;

/// How far a touch throws the player back, in thousandths of a world unit.
pub const KNOCKBACK_DISTANCE: i64 = 100_000;

/// How fast the player is thrown back, in thousandths per second.
pub const KNOCKBACK_SPEED: u32 = 200_000;

/// Of a hundred enemies, so many are of the plain kind; the rest fire.
pub const BASIC_SHARE: u32 = 95;

/// The size of the window, in thousandths of a world unit.
#[derive(Clone, Copy, Debug, PartialEq, Eq, Structural)]
pub struct WindowSize {
    pub width: i64,
    pub height: i64,
}

impl WindowSize {
    /// Neither side is negative, and both fit the world.
    pub open spec fn wf(self) -> bool {
        0 <= self.width <= WORLD_LIMIT && 0 <= self.height <= WORLD_LIMIT
    }

    /// Half the diagonal of the window, rounded down: from the middle of the
    /// window nothing nearer than this is off screen on every side.
    pub open spec fn half_diagonal(self) -> nat {
        floor_sqrt(
            ((self.width / 2) * (self.width / 2) + (self.height / 2) * (self.height / 2)) as nat,
        )
    }

    /// Half the diagonal of the window.
    pub fn spawn_radius(&self) -> (radius: i64)
        requires
            self.wf(),
        ensures
            radius == self.half_diagonal(),
            0 <= radius <= WORLD_LIMIT,
    {
        let half_w: u128 = (self.width / 2) as u128;
        let half_h: u128 = (self.height / 2) as u128;
        assert(half_w * half_w <= 549_755_813_888 * 549_755_813_888) by (nonlinear_arith)
            requires
                0 <= half_w <= 549_755_813_888,
        ;
        assert(half_h * half_h <= 549_755_813_888 * 549_755_813_888) by (nonlinear_arith)
            requires
                0 <= half_h <= 549_755_813_888,
        ;
        let squared: u128 = half_w * half_w + half_h * half_h;
        let root = isqrt(squared);
        proof {
            lemma_floor_sqrt_bounds(squared as nat);
            if root > WORLD_LIMIT {
                assert(root * root >= (WORLD_LIMIT + 1) * (WORLD_LIMIT + 1)) by (nonlinear_arith)
                    requires
                        root >= WORLD_LIMIT + 1,
                ;
            }
        }
        root as i64
    }
}

/// Where an enemy appears: on the circle of the window's half diagonal
/// round `center`, the way `heading` points, and inside the world.
pub open spec fn spawn_point(window: WindowSize, center: Vector, heading: MyDirection) -> Vector {
    center.moved(
        Vector {
            x: toward_zero(heading.0.x * window.half_diagonal(), UNIT as int) as i64,
            y: toward_zero(heading.0.y * window.half_diagonal(), UNIT as int) as i64,
        },
    )
}

/// The middle of the circle on which enemies appear: the player's place,
/// or the origin while there is no player.
pub open spec fn spawn_center(player: Option<&Transform>) -> Vector {
    match player {
        Some(transform) => transform.translation,
        None => Vector { x: 0, y: 0 },
    }
}

/// What a spawn looks like for given draws: the next enemy comes after
/// `delay_secs` seconds, and this one is of the plain kind if `percent` is
/// below `BASIC_SHARE` and of the firing kind if not.
pub open spec fn is_spawn(
    timer: EnemySpawnTimer,
    enemy: EnemyVariant,
    delay_secs: u32,
    percent: u32,
    window: WindowSize,
    center: Vector,
    heading: MyDirection,
) -> bool {
    let place = Transform { translation: spawn_point(window, center, heading) };
    &&& timer_state(timer.0) == TimerState::fresh(delay_secs as nat * 1_000_000_000, false)
    &&& percent < BASIC_SHARE ==> enemy is Basic && enemy->Basic_0 == EnemyBundle::basic().placed(
        place,
    )
    &&& percent >= BASIC_SHARE ==> enemy is Shooter && enemy->Shooter_0.enemy
        == EnemyBundle::ranged().placed(place) && enemy->Shooter_0.shooter.is_ready(
        5,
        2_000_000_000,
        300_000,
    )
}

/// A spawn for some draw that chance allows: a delay of two, three or four
/// seconds, and a percentage below a hundred.
pub open spec fn is_some_spawn(
    timer: EnemySpawnTimer,
    enemy: EnemyVariant,
    window: WindowSize,
    center: Vector,
    heading: MyDirection,
) -> bool {
    exists|delay_secs: u32, percent: u32|
        2 <= delay_secs < 5 && percent < 100 && #[trigger] is_spawn(
            timer,
            enemy,
            delay_secs,
            percent,
            window,
            center,
            heading,
        )
}

/// One component of `spawn_point`.
fn along_heading(component: i64, radius: i64) -> (coordinate: i64)
    requires
        -UNIT <= component <= UNIT,
        0 <= radius <= WORLD_LIMIT,
    ensures
        coordinate == toward_zero(component * radius, UNIT as int),
        -WORLD_LIMIT <= coordinate <= WORLD_LIMIT,
{
    let size: i64 = if component >= 0 {
        component
    } else {
        -component
    };
    assert(0 <= size * radius <= 1_000 * WORLD_LIMIT) by (nonlinear_arith)
        requires
            0 <= size <= 1_000,
            0 <= radius <= WORLD_LIMIT,
    ;
    let reach: i64 = (size * radius) / UNIT;
    proof {
        assert((size * radius) / (UNIT as int) <= radius) by (nonlinear_arith)
            requires
                0 <= size <= 1_000,
                0 <= radius,
                UNIT == 1_000,
        ;
        if component < 0 {
            assert(-(component * radius) == size * radius) by (nonlinear_arith)
                requires
                    size == -component,
            ;
            assert(component * radius <= 0) by (nonlinear_arith)
                requires
                    component < 0,
                    radius >= 0,
            ;
            if component * radius == 0 {
                assert(size * radius == 0);
            }
        } else {
            assert(component * radius >= 0) by (nonlinear_arith)
                requires
                    component >= 0,
                    radius >= 0,
            ;
        }
    }
    if component >= 0 {
        reach
    } else {
        -reach
    }
}

impl Default for EnemySpawnTimer {
    /// The countdown to the first enemy: half a second.
    fn default() -> (timer: EnemySpawnTimer)
        ensures
            timer_state(timer.0) == TimerState::fresh(500_000_000, false),
    {
        let wait = span_from_nanos(500_000_000);
        EnemySpawnTimer(timer_new(&wait, TimerMode::Once))
    }
}

/// Makes the enemy that appears for the given draws, and the countdown to
/// the next one: see `is_spawn`.
pub fn spawn_enemy(
    delay_secs: u32,
    percent: u32,
    window: &WindowSize,
    center: &Vector,
    heading: &MyDirection,
) -> (spawned: (EnemySpawnTimer, EnemyVariant))
    requires
        window.wf(),
        heading.0.is_direction(),
    ensures
        is_spawn(spawned.0, spawned.1, delay_secs, percent, *window, *center, *heading),
        spawned.1.body().sprite.transform.translation.in_world(),
{
    let wait = span_from_nanos(delay_secs as u64 * 1_000_000_000);
    let timer = EnemySpawnTimer(timer_new(&wait, TimerMode::Once));
    let radius = window.spawn_radius();
    let place = Transform {
        translation: center.translate(
            Vector { x: along_heading(heading.0.x, radius), y: along_heading(heading.0.y, radius) },
        ),
    };
    let enemy = if percent < BASIC_SHARE {
        EnemyVariant::Basic(EnemyBundle::default().with_transform(place))
    } else {
        EnemyVariant::Shooter(ShooterEnemyBundle::default().with_transform(place))
    };
    (timer, enemy)
}

/// Counts down to the next enemy and lets it appear when the time has come.
///
/// Without a window nothing happens. Otherwise the countdown runs on by
/// `delta`. When it ends in this frame, a new countdown of two, three or four
/// seconds starts and an enemy appears off screen, the way `heading` points
/// from the player (from the origin while there is no player); its kind is
/// drawn too.
pub fn enemy_spawner(
    timer: &mut EnemySpawnTimer,
    delta: &Duration,
    window: Option<&WindowSize>,
    player: Option<&Transform>,
    heading: &MyDirection,
) -> (spawned: Option<EnemyVariant>)
    requires
        timer_state(old(timer).0).can_tick(duration_nanos(*delta)),
        window is Some ==> window->0.wf(),
        heading.0.is_direction(),
    ensures
        window is None ==> spawned is None && *final(timer) == *old(timer),
        window is Some && !timer_state(old(timer).0).ticked(duration_nanos(*delta)).just_finished()
            ==> spawned is None && timer_state(final(timer).0) == timer_state(old(timer).0).ticked(
            duration_nanos(*delta),
        ),
        window is Some && timer_state(old(timer).0).ticked(duration_nanos(*delta)).just_finished()
            ==> spawned is Some && is_some_spawn(
            *final(timer),
            spawned->0,
            *window->0,
            spawn_center(player),
            *heading,
        ),
{
    match window {
        None => None,
        Some(window) => {
            timer_tick(&mut timer.0, delta);
            if timer_just_finished(&timer.0) {
                let delay_secs = roll_in_range(2, 5);
                let percent = roll_in_range(0, 100);
                let center = match player {
                    Some(transform) => transform.translation,
                    None => Vector { x: 0, y: 0 },
                };
                let (next, enemy) = spawn_enemy(delay_secs, percent, window, &center, heading);
                *timer = next;
                assert(is_spawn(*timer, enemy, delay_secs, percent, *window, center, *heading));
                Some(enemy)
            } else {
                None
            }
        },
    }
}

/// The step that carries an enemy at `position` toward the player.
pub open spec fn steering_step(position: Vector, player: Vector, speed: Speed, nanos: nat) -> Vector {
    delta_of(player.direction_from(position), speed.0 as nat, nanos)
}

/// Where an enemy is after steering for one frame: a step nearer to the
/// player, unless its hitbox would then overlap the player's; then it stays.
pub open spec fn steered(
    position: Vector,
    size: Vector,
    speed: Speed,
    player: SpriteBundle,
    nanos: nat,
) -> Vector {
    let ahead = position.moved(steering_step(position, player.transform.translation, speed, nanos));
    if Aabb2d::of_sprite(ahead, size).overlaps(player.hitbox()) {
        position
    } else {
        ahead
    }
}

/// The most an enemy turns in `nanos` nanoseconds, in thousandths of a radian.
pub open spec fn max_turn(nanos: nat) -> int {
    nanos as int / NANOS_PER_TURN_UNIT as int
}

/// The angle an enemy turns by in one frame: the whole angle to the player
/// if that is within `max_turn`, else `max_turn` the same way round.
pub open spec fn steering_turn(bearing: int, nanos: nat) -> int {
    clamp(bearing, -max_turn(nanos), max_turn(nanos))
}

/// Steers one enemy for one frame.
///
/// The enemy takes a step of `speed` times `delta` straight at the player and
/// takes it back if its hitbox would overlap the player's. `bearing` is the
/// signed angle, in thousandths of a radian, from the way the enemy faces to
/// the way to the player; the result is the angle to turn the enemy by, which
/// does not depend on whether the step was taken. Without a player nothing
/// moves and nothing turns.
pub fn move_enemies(
    delta: &Duration,
    enemy_tr: &mut Transform,
    enemy_spd: &Speed,
    enemy_sprite: &Sprite,
    player: Option<&SpriteBundle>,
    bearing: i64,
) -> (turn: i64)
    requires
        old(enemy_tr).translation.in_world(),
        enemy_sprite.has_box(),
        player is Some ==> player->0.wf(),
    ensures
        player is None ==> *final(enemy_tr) == *old(enemy_tr) && turn == 0,
        player is Some ==> final(enemy_tr).translation == steered(
            old(enemy_tr).translation,
            enemy_sprite.custom_size->0,
            *enemy_spd,
            *player->0,
            duration_nanos(*delta),
        ),
        player is Some ==> turn == steering_turn(bearing as int, duration_nanos(*delta)),
        final(enemy_tr).translation.in_world(),
{
    match player {
        None => 0,
        Some(player) => {
            let player_box = player.bounding_box();
            let here = enemy_tr.translation;
            let dir = MyDirection(get_direction(&player.transform.translation, &here));
            let step = get_delta(&dir, enemy_spd, delta);
            let ahead = here.translate(step);
            let size = match enemy_sprite.custom_size {
                Some(size) => size,
                None => Vector { x: 0, y: 0 },
            };
            let enemy_box = Aabb2d::from_sprite(ahead, size);
            if !enemy_box.intersects(&player_box) {
                enemy_tr.translation = ahead;
            }
            let limit: u128 = span_nanos(delta) / NANOS_PER_TURN_UNIT;
            let angle: i128 = bearing as i128;
            if angle >= 0 {
                if (angle as u128) <= limit {
                    bearing
                } else {
                    limit as i64
                }
            } else {
                if ((-angle) as u128) <= limit {
                    bearing
                } else {
                    -(limit as i64)
                }
            }
        },
    }
}

/// After steering, an enemy overlaps the player only where it stood still:
/// no step carries it into the player's hitbox.
pub proof fn lemma_steering_never_enters(
    position: Vector,
    size: Vector,
    speed: Speed,
    player: SpriteBundle,
    nanos: nat,
)
    ensures
        ({
            let after = steered(position, size, speed, player, nanos);
            let ahead = position.moved(
                steering_step(position, player.transform.translation, speed, nanos),
            );
            &&& Aabb2d::of_sprite(ahead, size).overlaps(player.hitbox()) ==> after == position
            &&& Aabb2d::of_sprite(after, size).overlaps(player.hitbox()) ==> after == position
        }),
{
}

/// Lets one enemy fire at the player if its reload time is over.
///
/// Without a player nothing happens. Otherwise the stopwatch runs on by
/// `delta`; once it has reached the reload time it starts again from zero and
/// a shot is reported, from the enemy's place at the player's.
pub fn enemies_shoot(
    delta: &Duration,
    player_tr: Option<&Transform>,
    e_tr: &Transform,
    e_reload: &mut ReloadStopwatch,
    e_reload_time: &ReloadTime,
    e_damage: &Damage,
    e_shot_speed: &ShotSpeed,
) -> (shot: Option<ShootEvent>)
    requires
        stopwatch_state(old(e_reload).0).can_tick(duration_nanos(*delta)),
    ensures
        player_tr is None ==> shot is None && *final(e_reload) == *old(e_reload),
        player_tr is Some ==> stopwatch_state(final(e_reload).0) == after_trigger(
            stopwatch_state(old(e_reload).0),
            duration_nanos(e_reload_time.0),
            duration_nanos(*delta),
        ),
        player_tr is Some ==> shot == (if cooldown_over(
            stopwatch_state(old(e_reload).0).ticked(duration_nanos(*delta)).elapsed,
            duration_nanos(e_reload_time.0),
        ) {
            Some(
                ShootEvent {
                    source: e_tr.translation,
                    target: player_tr->0.translation,
                    damage: *e_damage,
                    shooter: Shooter::Enemy,
                    bullet_speed: *e_shot_speed,
                },
            )
        } else {
            None
        }),
{
    match player_tr {
        None => None,
        Some(player_tr) => {
            if fire_control(e_reload, e_reload_time, delta) {
                Some(
                    ShootEvent {
                        source: e_tr.translation,
                        target: player_tr.translation,
                        damage: *e_damage,
                        shooter: Shooter::Enemy,
                        bullet_speed: *e_shot_speed,
                    },
                )
            } else {
                None
            }
        },
    }
}

/// The enemy touches the player: their hitboxes overlap.
pub open spec fn touches(player: SpriteBundle, enemy: SpriteBundle) -> bool {
    player.hitbox().overlaps(enemy.hitbox())
}

/// How many of the enemies touch the player.
pub open spec fn contact_count(player: SpriteBundle, enemies: Seq<SpriteBundle>) -> nat
    decreases enemies.len(),
{
    if enemies.len() == 0 {
        0
    } else {
        contact_count(player, enemies.drop_last()) + if touches(player, enemies.last()) {
            1nat
        } else {
            0nat
        }
    }
}

/// The last of the enemies that touches the player, if any does.
pub open spec fn last_contact(player: SpriteBundle, enemies: Seq<SpriteBundle>) -> Option<int>
    decreases enemies.len(),
{
    if enemies.len() == 0 {
        None
    } else if touches(player, enemies.last()) {
        Some(enemies.len() - 1)
    } else {
        last_contact(player, enemies.drop_last())
    }
}

/// The knockback that a touch of `enemy` gives the player: away from the
/// enemy.
pub open spec fn knockback(player: SpriteBundle, enemy: SpriteBundle) -> Pushed {
    Pushed {
        distance: Distance(KNOCKBACK_DISTANCE),
        direction: MyDirection(
            player.transform.translation.direction_from(enemy.transform.translation),
        ),
        speed: Speed(KNOCKBACK_SPEED),
    }
}

/// Resolves the contact of the player with the enemies.
///
/// Every enemy whose hitbox overlaps the player's costs the player
/// `CONTACT_DAMAGE` hit points, unless the player is invulnerable. Each such
/// touch also throws the player back, away from that enemy, invulnerable or
/// not; the knockback returned is that of the last enemy touching, which
/// replaces any other.
pub fn get_enemy_collisions(
    player: &SpriteBundle,
    player_hp: &mut Health,
    invulnerable: bool,
    enemies: &Vec<SpriteBundle>,
) -> (push: Option<Pushed>)
    requires
        player.wf(),
        forall|i: int| 0 <= i < enemies.len() ==> (#[trigger] enemies[i]).wf(),
    ensures
        invulnerable ==> *final(player_hp) == *old(player_hp),
        !invulnerable ==> final(player_hp).0 == hit_points_after(
            old(player_hp).0 as int,
            CONTACT_DAMAGE * contact_count(*player, enemies@),
        ),
        push == match last_contact(*player, enemies@) {
            Some(i) => Some(knockback(*player, enemies[i])),
            None => None,
        },
{
    let player_box = player.bounding_box();
    let mut push: Option<Pushed> = None;
    let mut i: usize = 0;
    while i < enemies.len()
        invariant
            i <= enemies.len(),
            player.wf(),
            player_box == player.hitbox(),
            forall|k: int| 0 <= k < enemies.len() ==> (#[trigger] enemies[k]).wf(),
            invulnerable ==> *player_hp == *old(player_hp),
            !invulnerable ==> player_hp.0 == hit_points_after(
                old(player_hp).0 as int,
                CONTACT_DAMAGE * contact_count(*player, enemies@.take(i as int)),
            ),
            push == match last_contact(*player, enemies@.take(i as int)) {
                Some(k) => Some(knockback(*player, enemies[k])),
                None => None,
            },
        decreases enemies.len() - i,
    {
        let enemy = &enemies[i];
        let enemy_box = enemy.bounding_box();
        proof {
            let upto = enemies@.take(i as int + 1);
            assert(upto.drop_last() == enemies@.take(i as int));
            assert(upto.last() == enemies[i as int]);
        }
        if player_box.intersects(&enemy_box) {
            let push_dir = get_direction(&player.transform.translation, &enemy.transform.translation);
            if !invulnerable {
                lose_hit_points(player_hp, CONTACT_DAMAGE);
            }
            push = Some(
                Pushed {
                    distance: Distance(KNOCKBACK_DISTANCE),
                    direction: MyDirection(push_dir),
                    speed: Speed(KNOCKBACK_SPEED),
                },
            );
        }
        i += 1;
    }
    proof {
        assert(enemies@.take(enemies.len() as int) == enemies@);
    }
    push
}

} // verus!
