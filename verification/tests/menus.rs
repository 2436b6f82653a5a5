use arcade_shooter::components::{Color, ExpGain, Health, PlayerExperience, PlayerLevel, PlayerScore};
use arcade_shooter::geometry::Vector;
use arcade_shooter::menus::{
    interact_styled_button, interact_with_quit_button, interact_with_reset_button,
    interact_with_resume_button, ButtonStyle, Interaction, Panel,
};
use arcade_shooter::states::{GameState, NextState};
use std::time::Duration;

#[test]
fn game_state_starts_running() {
    assert_eq!(GameState::default(), GameState::Running);
}

#[test]
fn next_state_is_applied_once() {
    let mut next = NextState(None);
    assert_eq!(next.apply(GameState::Running), GameState::Running);
    next.set(GameState::Paused);
    assert_eq!(next, NextState(Some(GameState::Paused)));
    next.set(GameState::GameOver);
    assert_eq!(next.apply(GameState::Running), GameState::GameOver);
    assert_eq!(next, NextState(None));
    assert_eq!(next.apply(GameState::GameOver), GameState::GameOver);
}

#[test]
fn every_state_but_running_shows_its_panel() {
    assert_eq!(GameState::Running.shown_panel(), None);
    assert_eq!(GameState::Paused.shown_panel(), Some(Panel::PauseMenu));
    assert_eq!(GameState::Upgrading.shown_panel(), Some(Panel::UpgradeMenu));
    assert_eq!(GameState::GameOver.shown_panel(), Some(Panel::GameOverMenu));
}

#[test]
fn gameplay_runs_only_while_running() {
    assert!(GameState::Running.gameplay_runs());
    assert!(!GameState::Paused.gameplay_runs());
    assert!(!GameState::Upgrading.gameplay_runs());
    assert!(!GameState::GameOver.gameplay_runs());
}

#[test]
fn button_colours() {
    assert_eq!(ButtonStyle::bg_color(), Color::rgb(38, 38, 38));
    assert_eq!(ButtonStyle::hover_bg_color(), Color::rgb(64, 64, 64));
    assert_eq!(ButtonStyle::press_bg_color(), Color::rgb(89, 191, 89));
}

#[test]
fn a_styled_button_follows_the_pointer() {
    assert_eq!(interact_styled_button(&Interaction::Pressed), Color::rgb(89, 191, 89));
    assert_eq!(interact_styled_button(&Interaction::Hovered), Color::rgb(64, 64, 64));
    assert_eq!(interact_styled_button(&Interaction::Idle), Color::rgb(38, 38, 38));
}

#[test]
fn the_resume_button_asks_for_the_running_game() {
    let mut next = NextState(None);
    interact_with_resume_button(&Interaction::Hovered, &mut next);
    assert_eq!(next, NextState(None));
    interact_with_resume_button(&Interaction::Idle, &mut next);
    assert_eq!(next, NextState(None));
    interact_with_resume_button(&Interaction::Pressed, &mut next);
    assert_eq!(next, NextState(Some(GameState::Running)));
}

#[test]
fn the_quit_button_asks_to_leave() {
    assert!(interact_with_quit_button(&Interaction::Pressed));
    assert!(!interact_with_quit_button(&Interaction::Hovered));
    assert!(!interact_with_quit_button(&Interaction::Idle));
}

#[test]
fn the_reset_button_starts_the_session_anew() {
    let mut next = NextState(Some(GameState::GameOver));
    let mut score = PlayerScore(125);
    let mut exp = PlayerExperience(17);
    let player =
        interact_with_reset_button(&Interaction::Pressed, &mut next, &mut score, &mut exp).unwrap();
    assert_eq!(next, NextState(Some(GameState::Running)));
    assert_eq!(score, PlayerScore(0));
    assert_eq!(exp, PlayerExperience(0));
    assert_eq!(player.hp, Health(30));
    assert_eq!(player.level, PlayerLevel { level: 1, next_level_delta: ExpGain(20) });
    assert_eq!(player.sprite.transform.translation, Vector::new(0, 0));
    assert_eq!(player.shooter.reload_time.0, Duration::from_millis(250));
    assert_eq!(player.shooter.since_last_reload.0.elapsed(), Duration::from_millis(250));
}

#[test]
fn the_reset_button_unpressed_changes_nothing() {
    for interaction in [Interaction::Hovered, Interaction::Idle] {
        let mut next = NextState(Some(GameState::GameOver));
        let mut score = PlayerScore(125);
        let mut exp = PlayerExperience(17);
        assert!(interact_with_reset_button(&interaction, &mut next, &mut score, &mut exp).is_none());
        assert_eq!(next, NextState(Some(GameState::GameOver)));
        assert_eq!(score, PlayerScore(125));
        assert_eq!(exp, PlayerExperience(17));
    }
}
