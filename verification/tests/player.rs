use arcade_shooter::bundles::{ExpCrumbBundle, PlayerBundle};
use arcade_shooter::components::{
    Color, CrumbCollectRadius, Damage, ExpGain, Health, PlayerExperience, PlayerLevel, Shooter,
    ShotSpeed, Speed, Transform,
};
use arcade_shooter::events::{MoveDirection, PlayerMoveEvent};
use arcade_shooter::geometry::{Vector, WORLD_LIMIT};
use arcade_shooter::player::{collect_crumbs, drop_crumbs, ilog2, level_up, move_player};
use arcade_shooter::states::{GameState, NextState};
use std::time::Duration;

fn crumb_at(x: i64, y: i64) -> ExpCrumbBundle {
    ExpCrumbBundle::with_transform(Transform { translation: Vector::new(x, y) })
}

#[test]
fn player_bundle_default_values() {
    let p = PlayerBundle::default();
    assert_eq!(p.speed, Speed(125_000));
    assert_eq!(p.hp, Health(30));
    assert_eq!(p.shooter_marker, Shooter::Player);
    assert_eq!(p.collect_radius, CrumbCollectRadius(200_000));
    assert_eq!(p.level, PlayerLevel { level: 1, next_level_delta: ExpGain(20) });
    assert_eq!(p.shooter.damage, Damage(5));
    assert_eq!(p.shooter.shot_speed, ShotSpeed(500_000));
    assert_eq!(p.shooter.reload_time.0, Duration::from_millis(250));
    assert_eq!(p.shooter.since_last_reload.0.elapsed(), Duration::from_millis(250));
    assert_eq!(p.sprite.sprite.color, Color::rgb(0, 255, 0));
    assert_eq!(p.sprite.sprite.custom_size, Some(Vector::new(50_000, 50_000)));
    assert_eq!(p.sprite.transform.translation, Vector::new(0, 0));
}

#[test]
fn a_copy_of_the_player_keeps_its_stopwatch() {
    let mut p = PlayerBundle::default();
    p.shooter.since_last_reload.0.tick(Duration::from_millis(40));
    let q = p.clone();
    assert_eq!(q.shooter.since_last_reload.0.elapsed(), Duration::from_millis(290));
    assert_eq!(q.shooter.since_last_reload.0, p.shooter.since_last_reload.0);
    assert_eq!(q.shooter.reload_time.0, Duration::from_millis(250));
    assert_eq!(q.hp, p.hp);
    assert_eq!(q.sprite, p.sprite);
}

#[test]
fn move_player_walks_one_step_for_each_event() {
    let mut tr = Transform { translation: Vector::new(0, 0) };
    let moves = vec![
        PlayerMoveEvent(MoveDirection::Up),
        PlayerMoveEvent(MoveDirection::Right),
        PlayerMoveEvent(MoveDirection::Right),
        PlayerMoveEvent(MoveDirection::Down),
        PlayerMoveEvent(MoveDirection::Down),
        PlayerMoveEvent(MoveDirection::Left),
    ];
    // 125 units a second for a fifth of a second: 25 units a step
    move_player(&mut tr, &Speed(125_000), &moves, &Duration::from_millis(200));
    assert_eq!(tr.translation, Vector::new(25_000, -25_000));
}

#[test]
fn move_player_up_is_plus_y_and_left_is_minus_x() {
    let mut tr = Transform { translation: Vector::new(10, 10) };
    move_player(
        &mut tr,
        &Speed(1_000),
        &vec![PlayerMoveEvent(MoveDirection::Up)],
        &Duration::from_secs(1),
    );
    assert_eq!(tr.translation, Vector::new(10, 1_010));
    move_player(
        &mut tr,
        &Speed(1_000),
        &vec![PlayerMoveEvent(MoveDirection::Left)],
        &Duration::from_secs(1),
    );
    assert_eq!(tr.translation, Vector::new(-990, 1_010));
}

#[test]
fn move_player_without_events_stands_still() {
    let mut tr = Transform { translation: Vector::new(3, 4) };
    move_player(&mut tr, &Speed(125_000), &Vec::new(), &Duration::from_secs(1));
    assert_eq!(tr.translation, Vector::new(3, 4));
}

#[test]
fn move_player_stops_at_the_border_step_by_step() {
    let mut tr = Transform { translation: Vector::new(WORLD_LIMIT - 1_000, 0) };
    let moves = vec![
        PlayerMoveEvent(MoveDirection::Right),
        PlayerMoveEvent(MoveDirection::Right),
        PlayerMoveEvent(MoveDirection::Left),
    ];
    move_player(&mut tr, &Speed(3_000), &moves, &Duration::from_secs(1));
    // the two steps to the right end at the border, the one to the left starts there
    assert_eq!(tr.translation, Vector::new(WORLD_LIMIT - 3_000, 0));
}

#[test]
fn crumb_default_values() {
    let c = ExpCrumbBundle::default();
    assert_eq!(c.gain, ExpGain(5));
    assert_eq!(c.sprite.sprite.color, Color::rgb(255, 255, 0));
    assert_eq!(c.sprite.sprite.custom_size, Some(Vector::new(10_000, 10_000)));
    assert_eq!(c.sprite.transform.translation, Vector::new(0, 0));
    assert_eq!(c, crumb_at(0, 0));
}

#[test]
fn drop_crumbs_where_an_enemy_died() {
    let place = Transform { translation: Vector::new(40_000, -10_000) };
    assert_eq!(drop_crumbs(&place, &Health(0), true), Some(crumb_at(40_000, -10_000)));
    assert_eq!(drop_crumbs(&place, &Health(-5), true), Some(crumb_at(40_000, -10_000)));
    assert_eq!(drop_crumbs(&place, &Health(1), true), None);
    assert_eq!(drop_crumbs(&place, &Health(0), false), None);
}

#[test]
fn collect_crumbs_gathers_what_is_in_reach() {
    let tr = Transform { translation: Vector::new(0, 0) };
    let level = PlayerLevel { level: 1, next_level_delta: ExpGain(20) };
    let crumbs = vec![
        crumb_at(100_000, 0),
        crumb_at(205_000, 0),
        crumb_at(205_001, 0),
        crumb_at(0, -150_000),
    ];
    let mut exp = PlayerExperience(3);
    let (taken, due) = collect_crumbs(&tr, &CrumbCollectRadius(200_000), &level, &crumbs, &mut exp);
    assert_eq!(taken, vec![true, true, false, true]);
    assert_eq!(exp, PlayerExperience(18));
    assert!(!due);
}

#[test]
fn collect_crumbs_reports_a_level_up_at_the_threshold() {
    let tr = Transform { translation: Vector::new(0, 0) };
    let level = PlayerLevel { level: 1, next_level_delta: ExpGain(20) };
    let crumbs = vec![crumb_at(0, 0)];
    let mut exp = PlayerExperience(15);
    let (taken, due) = collect_crumbs(&tr, &CrumbCollectRadius(200_000), &level, &crumbs, &mut exp);
    assert_eq!(taken, vec![true]);
    assert_eq!(exp, PlayerExperience(20));
    assert!(due);
    let mut short = PlayerExperience(14);
    let (_, due) = collect_crumbs(&tr, &CrumbCollectRadius(200_000), &level, &crumbs, &mut short);
    assert_eq!(short, PlayerExperience(19));
    assert!(!due);
}

#[test]
fn collect_crumbs_reports_a_level_up_even_for_a_crumb_out_of_reach() {
    let tr = Transform { translation: Vector::new(0, 0) };
    let level = PlayerLevel { level: 1, next_level_delta: ExpGain(20) };
    let mut exp = PlayerExperience(25);
    let far = vec![crumb_at(900_000, 0)];
    let (taken, due) = collect_crumbs(&tr, &CrumbCollectRadius(200_000), &level, &far, &mut exp);
    assert_eq!(taken, vec![false]);
    assert_eq!(exp, PlayerExperience(25));
    assert!(due);
    let (taken, due) =
        collect_crumbs(&tr, &CrumbCollectRadius(200_000), &level, &Vec::new(), &mut exp);
    assert!(taken.is_empty());
    assert!(!due);
}

#[test]
fn collect_crumbs_stops_at_the_greatest_experience() {
    let tr = Transform { translation: Vector::new(0, 0) };
    let level = PlayerLevel { level: 1, next_level_delta: ExpGain(20) };
    let crumbs = vec![crumb_at(0, 0), crumb_at(1, 1)];
    let mut exp = PlayerExperience(u32::MAX - 7);
    collect_crumbs(&tr, &CrumbCollectRadius(200_000), &level, &crumbs, &mut exp);
    assert_eq!(exp, PlayerExperience(u32::MAX));
}

#[test]
fn ilog2_is_the_whole_part_of_the_logarithm() {
    assert_eq!(ilog2(1), 0);
    assert_eq!(ilog2(2), 1);
    assert_eq!(ilog2(3), 1);
    assert_eq!(ilog2(4), 2);
    assert_eq!(ilog2(20), 4);
    assert_eq!(ilog2(31), 4);
    assert_eq!(ilog2(32), 5);
    assert_eq!(ilog2(u32::MAX), 31);
    for n in [1u32, 7, 20, 1_000, 65_535, 65_536, u32::MAX] {
        assert_eq!(ilog2(n), n.ilog2());
    }
}

#[test]
fn level_up_raises_level_and_threshold_and_resets_experience() {
    let mut level = PlayerLevel { level: 1, next_level_delta: ExpGain(20) };
    let mut next = NextState(None);
    let mut exp = PlayerExperience(23);
    level_up(true, &mut level, &mut next, &mut exp);
    assert_eq!(level, PlayerLevel { level: 2, next_level_delta: ExpGain(40) });
    assert_eq!(exp, PlayerExperience(0));
    assert_eq!(next, NextState(Some(GameState::Upgrading)));
}

#[test]
fn level_up_that_is_not_due_changes_nothing() {
    let mut level = PlayerLevel { level: 3, next_level_delta: ExpGain(65) };
    let mut next = NextState(None);
    let mut exp = PlayerExperience(64);
    level_up(false, &mut level, &mut next, &mut exp);
    assert_eq!(level, PlayerLevel { level: 3, next_level_delta: ExpGain(65) });
    assert_eq!(exp, PlayerExperience(64));
    assert_eq!(next, NextState(None));
}

#[test]
fn thresholds_of_consecutive_level_ups_from_twenty() {
    let mut level = PlayerLevel { level: 1, next_level_delta: ExpGain(20) };
    let mut seen = Vec::new();
    for _ in 0..8 {
        let mut next = NextState(None);
        let mut exp = PlayerExperience(level.next_level_delta.0);
        let before = level.next_level_delta.0;
        level_up(true, &mut level, &mut next, &mut exp);
        assert_eq!(level.next_level_delta.0, before + 5 * before.ilog2());
        assert_eq!(exp, PlayerExperience(0));
        seen.push(level.next_level_delta.0);
    }
    assert_eq!(seen, vec![40, 65, 95, 125, 155, 190, 225, 260]);
    assert_eq!(level.level, 9);
}

#[test]
fn level_up_stops_at_the_greatest_numbers() {
    let mut level = PlayerLevel { level: u32::MAX, next_level_delta: ExpGain(u32::MAX - 100) };
    let mut next = NextState(None);
    let mut exp = PlayerExperience(1);
    level_up(true, &mut level, &mut next, &mut exp);
    assert_eq!(level, PlayerLevel { level: u32::MAX, next_level_delta: ExpGain(u32::MAX) });
    let mut one = PlayerLevel { level: 1, next_level_delta: ExpGain(1) };
    level_up(true, &mut one, &mut next, &mut exp);
    assert_eq!(one, PlayerLevel { level: 2, next_level_delta: ExpGain(1) });
}
