use arcade_shooter::components::{Color, Damage, Health, ReloadTime, ShotSpeed, Speed};
use arcade_shooter::menus::{Interaction, StyledButton};
use arcade_shooter::states::{GameState, NextState};
use arcade_shooter::upgrades::{
    interact_upgrade_button, process_upgrade_event, spawn_upgrade_menu, upgrade_choices,
    UpgradeButton, UpgradeButtonBundle, UpgradeStatEvent, UpgradeVariant,
    UpgradeVariantComponent,
};
use std::time::Duration;

struct Stats {
    speed: Speed,
    shot_speed: ShotSpeed,
    damage: Damage,
    health: Health,
    reload: ReloadTime,
    next: NextState,
}

fn fresh_stats() -> Stats {
    Stats {
        speed: Speed(125_000),
        shot_speed: ShotSpeed(500_000),
        damage: Damage(5),
        health: Health(30),
        reload: ReloadTime(Duration::from_millis(250)),
        next: NextState(None),
    }
}

fn apply(stats: &mut Stats, variants: &[UpgradeVariant]) {
    let choices: Vec<UpgradeStatEvent> =
        variants.iter().map(|v| UpgradeStatEvent { variant: *v }).collect();
    process_upgrade_event(
        &choices,
        &mut stats.speed,
        &mut stats.shot_speed,
        &mut stats.damage,
        &mut stats.health,
        &mut stats.reload,
        &mut stats.next,
    );
}

#[test]
fn upgrade_choices_follow_the_fixed_order() {
    assert_eq!(
        upgrade_choices(&vec![0, 1, 2, 3, 4]),
        vec![
            UpgradeVariant::Speed,
            UpgradeVariant::Damage,
            UpgradeVariant::Health,
            UpgradeVariant::FireRate,
            UpgradeVariant::ShotSpeed,
        ]
    );
    assert_eq!(upgrade_choices(&vec![3, 3]), vec![UpgradeVariant::FireRate, UpgradeVariant::FireRate]);
    assert!(upgrade_choices(&Vec::new()).is_empty());
}

#[test]
fn spawn_upgrade_menu_offers_three_different_upgrades() {
    let mut seen = std::collections::HashSet::new();
    for _ in 0..300 {
        let offers = spawn_upgrade_menu();
        assert_eq!(offers.len(), 3);
        assert_ne!(offers[0], offers[1]);
        assert_ne!(offers[0], offers[2]);
        assert_ne!(offers[1], offers[2]);
        for offer in offers {
            seen.insert(format!("{:?}", offer));
        }
    }
    // chance reaches every upgrade
    assert_eq!(seen.len(), 5);
}

#[test]
fn get_text_labels_the_buttons() {
    assert_eq!(UpgradeButtonBundle::get_text(&UpgradeVariant::Speed), "Speed");
    assert_eq!(UpgradeButtonBundle::get_text(&UpgradeVariant::Damage), "Damage");
    assert_eq!(UpgradeButtonBundle::get_text(&UpgradeVariant::Health), "Health");
    assert_eq!(UpgradeButtonBundle::get_text(&UpgradeVariant::FireRate), "Fire rate");
    assert_eq!(UpgradeButtonBundle::get_text(&UpgradeVariant::ShotSpeed), "Shot speed");
}

#[test]
fn an_upgrade_button_stands_for_its_upgrade() {
    let expected = UpgradeButtonBundle {
        background_color: Color::rgb(38, 38, 38),
        upgrade_var: UpgradeVariantComponent(UpgradeVariant::FireRate),
        marker: UpgradeButton,
        styled: StyledButton,
    };
    assert_eq!(UpgradeButtonBundle::with_variant(UpgradeVariant::FireRate), expected);
    assert_eq!(
        UpgradeButtonBundle::default(),
        UpgradeButtonBundle::with_variant(UpgradeVariant::Damage)
    );
}

#[test]
fn a_pressed_upgrade_button_reports_its_upgrade() {
    let button = UpgradeVariantComponent(UpgradeVariant::FireRate);
    assert_eq!(
        interact_upgrade_button(&Interaction::Pressed, &button),
        Some(UpgradeStatEvent { variant: UpgradeVariant::FireRate })
    );
    assert_eq!(interact_upgrade_button(&Interaction::Hovered, &button), None);
    assert_eq!(interact_upgrade_button(&Interaction::Idle, &button), None);
}

#[test]
fn speed_upgrade_adds_a_tenth() {
    let mut s = fresh_stats();
    apply(&mut s, &[UpgradeVariant::Speed]);
    assert_eq!(s.speed, Speed(137_500));
    assert_eq!(s.shot_speed, ShotSpeed(500_000));
    assert_eq!(s.damage, Damage(5));
    assert_eq!(s.health, Health(30));
    assert_eq!(s.reload.0, Duration::from_millis(250));
    assert_eq!(s.next, NextState(Some(GameState::Running)));
}

#[test]
fn shot_speed_upgrade_adds_a_tenth() {
    let mut s = fresh_stats();
    apply(&mut s, &[UpgradeVariant::ShotSpeed]);
    assert_eq!(s.shot_speed, ShotSpeed(550_000));
    assert_eq!(s.speed, Speed(125_000));
}

#[test]
fn damage_upgrade_adds_five_and_health_upgrade_ten() {
    let mut s = fresh_stats();
    apply(&mut s, &[UpgradeVariant::Damage]);
    assert_eq!(s.damage, Damage(10));
    assert_eq!(s.health, Health(30));
    apply(&mut s, &[UpgradeVariant::Health]);
    assert_eq!(s.damage, Damage(10));
    assert_eq!(s.health, Health(40));
}

#[test]
fn fire_rate_upgrade_takes_a_fifth_off_the_reload_time() {
    let mut s = fresh_stats();
    apply(&mut s, &[UpgradeVariant::FireRate]);
    assert_eq!(s.reload.0, Duration::from_millis(200));
    apply(&mut s, &[UpgradeVariant::FireRate]);
    assert_eq!(s.reload.0, Duration::from_millis(160));
    let mut odd = fresh_stats();
    odd.reload = ReloadTime(Duration::from_nanos(7));
    apply(&mut odd, &[UpgradeVariant::FireRate]);
    assert_eq!(odd.reload.0, Duration::from_nanos(6));
}

#[test]
fn several_upgrades_apply_in_order() {
    let mut s = fresh_stats();
    apply(
        &mut s,
        &[
            UpgradeVariant::Speed,
            UpgradeVariant::Speed,
            UpgradeVariant::Health,
            UpgradeVariant::Damage,
            UpgradeVariant::ShotSpeed,
            UpgradeVariant::FireRate,
        ],
    );
    assert_eq!(s.speed, Speed(151_250));
    assert_eq!(s.health, Health(40));
    assert_eq!(s.damage, Damage(10));
    assert_eq!(s.shot_speed, ShotSpeed(550_000));
    assert_eq!(s.reload.0, Duration::from_millis(200));
    assert_eq!(s.next, NextState(Some(GameState::Running)));
}

#[test]
fn without_a_choice_nothing_changes() {
    let mut s = fresh_stats();
    s.next = NextState(Some(GameState::Upgrading));
    apply(&mut s, &[]);
    assert_eq!(s.speed, Speed(125_000));
    assert_eq!(s.shot_speed, ShotSpeed(500_000));
    assert_eq!(s.damage, Damage(5));
    assert_eq!(s.health, Health(30));
    assert_eq!(s.reload.0, Duration::from_millis(250));
    assert_eq!(s.next, NextState(Some(GameState::Upgrading)));
}

#[test]
fn upgrades_stop_at_the_greatest_numbers() {
    let mut s = fresh_stats();
    s.speed = Speed(u32::MAX - 10);
    s.shot_speed = ShotSpeed(u32::MAX);
    s.damage = Damage(i32::MAX - 2);
    s.health = Health(i32::MAX - 9);
    s.reload = ReloadTime(Duration::MAX);
    apply(
        &mut s,
        &[
            UpgradeVariant::Speed,
            UpgradeVariant::ShotSpeed,
            UpgradeVariant::Damage,
            UpgradeVariant::Health,
            UpgradeVariant::FireRate,
        ],
    );
    assert_eq!(s.speed, Speed(u32::MAX));
    assert_eq!(s.shot_speed, ShotSpeed(u32::MAX));
    assert_eq!(s.damage, Damage(i32::MAX));
    assert_eq!(s.health, Health(i32::MAX));
    assert_eq!(s.reload.0, Duration::from_nanos(u64::MAX));
}
