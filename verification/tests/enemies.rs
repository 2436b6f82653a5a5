use arcade_shooter::bundles::{EnemyBundle, EnemyVariant, ShooterEnemyBundle, SpriteBundle};
use arcade_shooter::components::{
    lose_hit_points, Color, Damage, Distance, EnemySpawnTimer, Health, MyDirection, PointWorth,
    Pushed, ReloadStopwatch, ReloadTime, Shooter, ShotSpeed, Speed, Sprite, Transform,
    Visibility,
};
use arcade_shooter::enemies::{
    enemies_shoot, enemy_spawner, get_enemy_collisions, move_enemies,
    spawn_enemy, WindowSize,
};
use arcade_shooter::events::ShootEvent;
use arcade_shooter::geometry::{Vector, WORLD_LIMIT};
use bevy::time::{Stopwatch, Timer, TimerMode};
use std::time::Duration;

fn body_at(x: i64, y: i64, side: i64) -> SpriteBundle {
    SpriteBundle {
        sprite: Sprite { color: Color::rgb(0, 0, 255), custom_size: Some(Vector::new(side, side)) },
        transform: Transform { translation: Vector::new(x, y) },
        visibility: Visibility::Visible,
    }
}

#[test]
fn enemy_bundle_default_is_the_basic_enemy() {
    let e = EnemyBundle::default();
    assert_eq!(e.speed, Speed(100_000));
    assert_eq!(e.hp, Health(10));
    assert_eq!(e.point_worth, PointWorth(5));
    assert_eq!(e.shooter_marker, Shooter::Enemy);
    assert_eq!(e.sprite.sprite.custom_size, Some(Vector::new(50_000, 50_000)));
    assert_eq!(e.sprite.sprite.color, Color::rgb(0, 0, 255));
    assert_eq!(e.sprite.transform.translation, Vector::new(0, 0));
}

#[test]
fn enemy_bundle_with_transform_moves_only_the_place() {
    let place = Transform { translation: Vector::new(7, -9) };
    let e = EnemyBundle::default().with_transform(place);
    assert_eq!(e.sprite.transform, place);
    let mut expected = EnemyBundle::default();
    expected.sprite.transform = place;
    assert_eq!(e, expected);
}

#[test]
fn shooter_enemy_default_is_ready_to_fire() {
    let e = ShooterEnemyBundle::default();
    assert_eq!(e.enemy.hp, Health(20));
    assert_eq!(e.enemy.point_worth, PointWorth(10));
    assert_eq!(e.enemy.speed, Speed(100_000));
    assert_eq!(e.enemy.sprite.sprite.color, Color::rgb(128, 0, 128));
    assert_eq!(e.shooter.damage, Damage(5));
    assert_eq!(e.shooter.shot_speed, ShotSpeed(300_000));
    assert_eq!(e.shooter.reload_time.0, Duration::from_secs(2));
    assert_eq!(e.shooter.since_last_reload.0.elapsed(), Duration::from_secs(2));
    assert!(!e.shooter.since_last_reload.0.paused());
}

#[test]
fn shooter_enemy_with_transform_keeps_the_shooter() {
    let place = Transform { translation: Vector::new(1_000, 2_000) };
    let e = ShooterEnemyBundle::default().with_transform(place);
    assert_eq!(e.enemy.sprite.transform, place);
    assert_eq!(e.enemy.hp, Health(20));
    assert_eq!(e.shooter.reload_time.0, Duration::from_secs(2));
    assert_eq!(e.shooter.since_last_reload.0.elapsed(), Duration::from_secs(2));
}

#[test]
fn spawn_timer_starts_at_half_a_second() {
    let t = EnemySpawnTimer::default();
    assert_eq!(t.0.duration(), Duration::from_millis(500));
    assert_eq!(t.0.elapsed(), Duration::ZERO);
    assert_eq!(t.0.mode(), TimerMode::Once);
    assert!(!t.0.finished());
    assert!(!t.0.paused());
}

#[test]
fn spawn_radius_is_half_the_diagonal() {
    assert_eq!(WindowSize { width: 6_000, height: 8_000 }.spawn_radius(), 5_000);
    assert_eq!(WindowSize { width: 0, height: 0 }.spawn_radius(), 0);
    // 1280 by 720: half diagonal sqrt(640^2 + 360^2) = 734.30...
    assert_eq!(WindowSize { width: 1_280_000, height: 720_000 }.spawn_radius(), 734_302);
}

#[test]
fn spawn_enemy_of_the_basic_kind_below_ninety_five() {
    let window = WindowSize { width: 6_000, height: 8_000 };
    let heading = MyDirection(Vector::new(1_000, 0));
    for percent in [0u32, 50, 94] {
        let (timer, enemy) = spawn_enemy(3, percent, &window, &Vector::new(0, 0), &heading);
        assert_eq!(timer.0.duration(), Duration::from_secs(3));
        assert_eq!(timer.0.elapsed(), Duration::ZERO);
        assert_eq!(timer.0.mode(), TimerMode::Once);
        assert!(!timer.0.finished());
        match enemy {
            EnemyVariant::Basic(e) => {
                assert_eq!(
                    e,
                    EnemyBundle::default()
                        .with_transform(Transform { translation: Vector::new(5_000, 0) })
                );
            }
            EnemyVariant::Shooter(_) => panic!("a shooter below the share of the basic kind"),
        }
    }
}

#[test]
fn spawn_enemy_of_the_firing_kind_from_ninety_five() {
    let window = WindowSize { width: 6_000, height: 8_000 };
    let heading = MyDirection(Vector::new(-600, 800));
    for percent in [95u32, 96, 99] {
        let (timer, enemy) = spawn_enemy(4, percent, &window, &Vector::new(1_000_000, -500_000), &heading);
        assert_eq!(timer.0.duration(), Duration::from_secs(4));
        match enemy {
            EnemyVariant::Shooter(s) => {
                assert_eq!(s.enemy.sprite.transform.translation, Vector::new(997_000, -496_000));
                assert_eq!(s.enemy.hp, Health(20));
                assert_eq!(s.enemy.point_worth, PointWorth(10));
                assert_eq!(s.shooter.damage, Damage(5));
                assert_eq!(s.shooter.reload_time.0, Duration::from_secs(2));
                assert_eq!(s.shooter.since_last_reload.0.elapsed(), Duration::from_secs(2));
            }
            EnemyVariant::Basic(_) => panic!("a basic enemy from the share of the shooters"),
        }
    }
}

#[test]
fn enemy_spawner_waits_for_the_countdown() {
    let mut timer = EnemySpawnTimer::default();
    let window = WindowSize { width: 1_280_000, height: 720_000 };
    let heading = MyDirection(Vector::new(0, 1_000));
    let spawned = enemy_spawner(&mut timer, &Duration::from_millis(499), Some(&window), None, &heading);
    assert!(spawned.is_none());
    assert_eq!(timer.0.elapsed(), Duration::from_millis(499));
    assert_eq!(timer.0.duration(), Duration::from_millis(500));
    assert!(!timer.0.finished());
}

#[test]
fn enemy_spawner_spawns_when_the_countdown_ends() {
    let window = WindowSize { width: 1_280_000, height: 720_000 };
    let heading = MyDirection(Vector::new(0, 1_000));
    let mut basic = 0;
    let mut shooters = 0;
    for _ in 0..400 {
        let mut timer = EnemySpawnTimer::default();
        let player = Transform { translation: Vector::new(-100_000, 50_000) };
        let spawned = enemy_spawner(
            &mut timer,
            &Duration::from_millis(500),
            Some(&window),
            Some(&player),
            &heading,
        );
        let secs = timer.0.duration().as_secs();
        assert!((2..5).contains(&secs));
        assert_eq!(timer.0.duration().subsec_nanos(), 0);
        assert_eq!(timer.0.elapsed(), Duration::ZERO);
        assert!(!timer.0.finished());
        assert_eq!(timer.0.mode(), TimerMode::Once);
        match spawned {
            Some(EnemyVariant::Basic(e)) => {
                basic += 1;
                assert_eq!(e.sprite.transform.translation, Vector::new(-100_000, 784_302));
                assert_eq!(e.hp, Health(10));
            }
            Some(EnemyVariant::Shooter(s)) => {
                shooters += 1;
                assert_eq!(s.enemy.sprite.transform.translation, Vector::new(-100_000, 784_302));
                assert_eq!(s.enemy.hp, Health(20));
            }
            None => panic!("no enemy although the countdown ended"),
        }
    }
    assert_eq!(basic + shooters, 400);
    assert!(basic > shooters);
}

#[test]
fn enemy_spawner_spawns_round_the_origin_without_a_player() {
    let window = WindowSize { width: 6_000, height: 8_000 };
    let heading = MyDirection(Vector::new(-600, -800));
    let mut timer = EnemySpawnTimer::default();
    let spawned =
        enemy_spawner(&mut timer, &Duration::from_secs(1), Some(&window), None, &heading);
    let place = match spawned {
        Some(EnemyVariant::Basic(e)) => e.sprite.transform.translation,
        Some(EnemyVariant::Shooter(s)) => s.enemy.sprite.transform.translation,
        None => panic!("no enemy although the countdown ended"),
    };
    assert_eq!(place, Vector::new(-3_000, -4_000));
}

#[test]
fn spawn_enemy_stays_inside_the_world() {
    let window = WindowSize { width: 6_000, height: 8_000 };
    let heading = MyDirection(Vector::new(1_000, 0));
    let corner = Vector::new(WORLD_LIMIT - 10, WORLD_LIMIT);
    let (_, enemy) = spawn_enemy(2, 0, &window, &corner, &heading);
    match enemy {
        EnemyVariant::Basic(e) => {
            assert_eq!(e.sprite.transform.translation, Vector::new(WORLD_LIMIT, WORLD_LIMIT))
        }
        EnemyVariant::Shooter(_) => panic!("the draw asks for the basic kind"),
    }
}

#[test]
fn enemy_spawner_without_a_window_does_nothing() {
    let mut timer = EnemySpawnTimer::default();
    let heading = MyDirection(Vector::new(0, 1_000));
    let spawned = enemy_spawner(&mut timer, &Duration::from_secs(1), None, None, &heading);
    assert!(spawned.is_none());
    assert_eq!(timer.0.elapsed(), Duration::ZERO);
    assert_eq!(timer.0.duration(), Duration::from_millis(500));
    assert!(!timer.0.finished());
}

#[test]
fn enemy_spawner_spawns_once_for_one_countdown() {
    let mut timer = EnemySpawnTimer(Timer::new(Duration::from_secs(10), TimerMode::Once));
    let window = WindowSize { width: 1_000, height: 1_000 };
    let heading = MyDirection(Vector::new(1_000, 0));
    assert!(enemy_spawner(&mut timer, &Duration::from_secs(9), Some(&window), None, &heading).is_none());
    assert!(enemy_spawner(&mut timer, &Duration::from_secs(1), Some(&window), None, &heading).is_some());
    // the new countdown is at least two seconds long
    assert!(enemy_spawner(&mut timer, &Duration::from_secs(1), Some(&window), None, &heading).is_none());
}

#[test]
fn move_enemies_steps_toward_the_player() {
    let player = body_at(0, 0, 50_000);
    let mut tr = Transform { translation: Vector::new(400_000, 0) };
    let sprite = Sprite { color: Color::rgb(0, 0, 255), custom_size: Some(Vector::new(50_000, 50_000)) };
    let turn = move_enemies(
        &Duration::from_millis(100),
        &mut tr,
        &Speed(100_000),
        &sprite,
        Some(&player),
        0,
    );
    assert_eq!(tr.translation, Vector::new(390_000, 0));
    assert_eq!(turn, 0);
}

#[test]
fn move_enemies_steps_along_the_diagonal() {
    let player = body_at(0, 0, 50_000);
    let mut tr = Transform { translation: Vector::new(-300_000, 400_000) };
    let sprite = Sprite { color: Color::rgb(0, 0, 255), custom_size: Some(Vector::new(50_000, 50_000)) };
    move_enemies(&Duration::from_secs(1), &mut tr, &Speed(100_000), &sprite, Some(&player), 0);
    assert_eq!(tr.translation, Vector::new(-240_000, 320_000));
}

#[test]
fn move_enemies_takes_back_a_step_into_the_player() {
    let player = body_at(0, 0, 50_000);
    let sprite = Sprite { color: Color::rgb(0, 0, 255), custom_size: Some(Vector::new(50_000, 50_000)) };
    // a step of ten units from sixty units away ends exactly touching: taken back
    let mut tr = Transform { translation: Vector::new(60_000, 0) };
    move_enemies(&Duration::from_millis(100), &mut tr, &Speed(100_000), &sprite, Some(&player), 0);
    assert_eq!(tr.translation, Vector::new(60_000, 0));
    // one thousandth farther away the step ends just short of touching: taken
    let mut tr = Transform { translation: Vector::new(60_001, 0) };
    move_enemies(&Duration::from_millis(100), &mut tr, &Speed(100_000), &sprite, Some(&player), 0);
    assert_eq!(tr.translation, Vector::new(50_001, 0));
}

#[test]
fn move_enemies_does_not_jump_over_the_player_when_the_step_lands_inside() {
    let player = body_at(0, 0, 50_000);
    let sprite = Sprite { color: Color::rgb(0, 0, 255), custom_size: Some(Vector::new(50_000, 50_000)) };
    let mut tr = Transform { translation: Vector::new(55_000, 0) };
    move_enemies(&Duration::from_millis(500), &mut tr, &Speed(100_000), &sprite, Some(&player), 0);
    assert_eq!(tr.translation, Vector::new(55_000, 0));
}

#[test]
fn move_enemies_without_a_player_does_nothing() {
    let sprite = Sprite { color: Color::rgb(0, 0, 255), custom_size: Some(Vector::new(50_000, 50_000)) };
    let mut tr = Transform { translation: Vector::new(60_000, 70_000) };
    let turn = move_enemies(&Duration::from_secs(1), &mut tr, &Speed(100_000), &sprite, None, 3_000);
    assert_eq!(tr.translation, Vector::new(60_000, 70_000));
    assert_eq!(turn, 0);
}

#[test]
fn move_enemies_turns_at_most_ten_radians_a_second() {
    let player = body_at(0, 0, 50_000);
    let sprite = Sprite { color: Color::rgb(0, 0, 255), custom_size: Some(Vector::new(50_000, 50_000)) };
    let mut tr = Transform { translation: Vector::new(400_000, 0) };
    let frame = Duration::from_millis(100);
    // a tenth of a second allows one radian
    assert_eq!(move_enemies(&frame, &mut tr, &Speed(0), &sprite, Some(&player), 3_000), 1_000);
    assert_eq!(move_enemies(&frame, &mut tr, &Speed(0), &sprite, Some(&player), -3_000), -1_000);
    assert_eq!(move_enemies(&frame, &mut tr, &Speed(0), &sprite, Some(&player), 999), 999);
    assert_eq!(move_enemies(&frame, &mut tr, &Speed(0), &sprite, Some(&player), -1_000), -1_000);
    assert_eq!(move_enemies(&frame, &mut tr, &Speed(0), &sprite, Some(&player), 0), 0);
    assert_eq!(
        move_enemies(&Duration::ZERO, &mut tr, &Speed(0), &sprite, Some(&player), 3_000),
        0
    );
    assert_eq!(
        move_enemies(&Duration::MAX, &mut tr, &Speed(0), &sprite, Some(&player), i64::MIN),
        i64::MIN
    );
}

#[test]
fn move_enemies_turns_even_when_the_step_is_taken_back() {
    let player = body_at(0, 0, 50_000);
    let sprite = Sprite { color: Color::rgb(0, 0, 255), custom_size: Some(Vector::new(50_000, 50_000)) };
    let mut tr = Transform { translation: Vector::new(50_000, 0) };
    let turn = move_enemies(
        &Duration::from_millis(100),
        &mut tr,
        &Speed(100_000),
        &sprite,
        Some(&player),
        -500,
    );
    assert_eq!(tr.translation, Vector::new(50_000, 0));
    assert_eq!(turn, -500);
}

#[test]
fn enemies_shoot_fires_when_the_reload_time_is_over() {
    let player = Transform { translation: Vector::new(0, 0) };
    let e_tr = Transform { translation: Vector::new(100_000, 50_000) };
    let mut watch = ReloadStopwatch(Stopwatch::new());
    let reload = ReloadTime(Duration::from_secs(2));
    let frame = Duration::from_millis(500);
    for _ in 0..3 {
        let shot = enemies_shoot(
            &frame,
            Some(&player),
            &e_tr,
            &mut watch,
            &reload,
            &Damage(5),
            &ShotSpeed(300_000),
        );
        assert!(shot.is_none());
    }
    assert_eq!(watch.0.elapsed(), Duration::from_millis(1_500));
    let shot = enemies_shoot(
        &frame,
        Some(&player),
        &e_tr,
        &mut watch,
        &reload,
        &Damage(5),
        &ShotSpeed(300_000),
    );
    assert_eq!(
        shot,
        Some(ShootEvent {
            source: Vector::new(100_000, 50_000),
            target: Vector::new(0, 0),
            damage: Damage(5),
            shooter: Shooter::Enemy,
            bullet_speed: ShotSpeed(300_000),
        })
    );
    assert_eq!(watch.0.elapsed(), Duration::ZERO);
}

#[test]
fn enemies_shoot_without_a_player_does_nothing() {
    let e_tr = Transform { translation: Vector::new(100_000, 50_000) };
    let mut watch = ReloadStopwatch(Stopwatch::new());
    watch.0.tick(Duration::from_secs(5));
    let shot = enemies_shoot(
        &Duration::from_secs(1),
        None,
        &e_tr,
        &mut watch,
        &ReloadTime(Duration::from_secs(2)),
        &Damage(5),
        &ShotSpeed(300_000),
    );
    assert!(shot.is_none());
    assert_eq!(watch.0.elapsed(), Duration::from_secs(5));
}

#[test]
fn a_fresh_shooter_enemy_fires_in_its_first_frame() {
    let player = Transform { translation: Vector::new(0, 0) };
    let mut enemy = ShooterEnemyBundle::default();
    let shot = enemies_shoot(
        &Duration::ZERO,
        Some(&player),
        &enemy.enemy.sprite.transform,
        &mut enemy.shooter.since_last_reload,
        &enemy.shooter.reload_time,
        &enemy.shooter.damage,
        &enemy.shooter.shot_speed,
    );
    assert!(shot.is_some());
    assert_eq!(enemy.shooter.since_last_reload.0.elapsed(), Duration::ZERO);
}

#[test]
fn lose_hit_points_subtracts_and_stops_at_the_bounds() {
    let mut hp = Health(30);
    lose_hit_points(&mut hp, 5);
    assert_eq!(hp, Health(25));
    lose_hit_points(&mut hp, 40);
    assert_eq!(hp, Health(-15));
    lose_hit_points(&mut hp, -15);
    assert_eq!(hp, Health(0));
    let mut low = Health(i32::MIN + 2);
    lose_hit_points(&mut low, 5);
    assert_eq!(low, Health(i32::MIN));
    let mut high = Health(i32::MAX - 2);
    lose_hit_points(&mut high, -5);
    assert_eq!(high, Health(i32::MAX));
}

#[test]
fn get_enemy_collisions_hurts_and_pushes_away() {
    let player = body_at(0, 0, 50_000);
    let mut hp = Health(30);
    let enemies = vec![body_at(500_000, 0, 50_000), body_at(-40_000, 30_000, 50_000)];
    let push = get_enemy_collisions(&player, &mut hp, false, &enemies);
    assert_eq!(hp, Health(25));
    assert_eq!(
        push,
        Some(Pushed {
            distance: Distance(100_000),
            direction: MyDirection(Vector::new(800, -600)),
            speed: Speed(200_000),
        })
    );
}

#[test]
fn get_enemy_collisions_counts_every_enemy_and_keeps_the_last_push() {
    let player = body_at(0, 0, 50_000);
    let mut hp = Health(30);
    let enemies = vec![
        body_at(50_000, 0, 50_000),
        body_at(0, 50_001, 50_000),
        body_at(0, -50_000, 50_000),
        body_at(50_001, 0, 50_000),
    ];
    let push = get_enemy_collisions(&player, &mut hp, false, &enemies);
    assert_eq!(hp, Health(20));
    assert_eq!(
        push,
        Some(Pushed {
            distance: Distance(100_000),
            direction: MyDirection(Vector::new(0, 1_000)),
            speed: Speed(200_000),
        })
    );
}

#[test]
fn get_enemy_collisions_without_contact_changes_nothing() {
    let player = body_at(0, 0, 50_000);
    let mut hp = Health(30);
    let enemies = vec![body_at(50_001, 0, 50_000), body_at(0, 900_000, 50_000)];
    assert_eq!(get_enemy_collisions(&player, &mut hp, false, &enemies), None);
    assert_eq!(hp, Health(30));
    assert_eq!(get_enemy_collisions(&player, &mut hp, false, &Vec::new()), None);
    assert_eq!(hp, Health(30));
}

#[test]
fn get_enemy_collisions_spares_the_invulnerable_but_still_pushes() {
    let player = body_at(0, 0, 50_000);
    let mut hp = Health(30);
    let enemies = vec![body_at(-30_000, 0, 50_000)];
    let push = get_enemy_collisions(&player, &mut hp, true, &enemies);
    assert_eq!(hp, Health(30));
    assert_eq!(
        push,
        Some(Pushed {
            distance: Distance(100_000),
            direction: MyDirection(Vector::new(1_000, 0)),
            speed: Speed(200_000),
        })
    );
}

#[test]
fn get_enemy_collisions_stops_at_the_least_hit_points() {
    let player = body_at(0, 0, 50_000);
    let mut hp = Health(i32::MIN + 7);
    let enemies = vec![body_at(0, 0, 50_000), body_at(1, 1, 50_000)];
    get_enemy_collisions(&player, &mut hp, false, &enemies);
    assert_eq!(hp, Health(i32::MIN));
}
