//! The buttons of the menus and what pressing them does.

use crate::bundles::PlayerBundle;
use crate::components::{Color, PlayerExperience, PlayerScore};
use crate::states::{GameState, NextState};
use vstd::prelude::*;

verus! {

/// What the pointer does to a button.
#[derive(Clone, Copy, Debug, PartialEq, Eq, Structural)]
pub enum Interaction {
    Pressed,
    Hovered,
    Idle,
}

/// The panel that lies over the game.
#[derive(Clone, Copy, Debug, PartialEq, Eq, Structural)]
pub enum Panel {
    PauseMenu,
    UpgradeMenu,
    GameOverMenu,
}

/// Marks the pause menu.
#[derive(Clone, Copy, Debug, PartialEq, Eq, Structural)]
pub struct PauseMenu;

/// Marks the menu shown when the game is over.
#[derive(Clone, Copy, Debug, PartialEq, Eq, Structural)]
pub struct GameOverMenu;

/// Marks the button that resumes the game.
#[derive(Clone, Copy, Debug, PartialEq, Eq, Structural)]
pub struct ResumeButton;

/// Marks the button that leaves the program.
#[derive(Clone, Copy, Debug, PartialEq, Eq, Structural)]
pub struct QuitButton;

/// Marks the button that starts the session anew.
#[derive(Clone, Copy, Debug, PartialEq, Eq, Structural)]
pub struct ResetButton;

/// Marks a button that changes colour under the pointer.
#[derive(Clone, Copy, Debug, PartialEq, Eq, Structural)]
pub struct StyledButton;

/// The colours of a button.
#[derive(Clone, Copy, Debug, PartialEq, Eq, Structural)]
pub struct ButtonStyle;

impl ButtonStyle {
    /// A dark grey.
    pub open spec fn idle_color() -> Color {
        Color { red: 38, green: 38, blue: 38 }
    }

    /// A lighter grey.
    pub open spec fn hover_color() -> Color {
        Color { red: 64, green: 64, blue: 64 }
    }

    /// A pale green.
    pub open spec fn press_color() -> Color {
        Color { red: 89, green: 191, blue: 89 }
    }

    /// The colour of a button at rest.
    pub fn bg_color() -> (color: Color)
        ensures
            color == ButtonStyle::idle_color(),
    {
        Color::rgb(38, 38, 38)
    }

    /// The colour of a button under the pointer.
    pub fn hover_bg_color() -> (color: Color)
        ensures
            color == ButtonStyle::hover_color(),
    {
        Color::rgb(64, 64, 64)
    }

    /// The colour of a button that is held down.
    pub fn press_bg_color() -> (color: Color)
        ensures
            color == ButtonStyle::press_color(),
    {
        Color::rgb(89, 191, 89)
    }
}

impl GameState {
    /// The panel that lies over the game in this state; none while it runs.
    pub open spec fn panel(self) -> Option<Panel> {
        match self {
            GameState::Running => None,
            GameState::Paused => Some(Panel::PauseMenu),
            GameState::Upgrading => Some(Panel::UpgradeMenu),
            GameState::GameOver => Some(Panel::GameOverMenu),
        }
    }

    /// The panel to show in this state.
    pub fn shown_panel(&self) -> (panel: Option<Panel>)
        ensures
            panel == self.panel(),
    {
        match self {
            GameState::Running => None,
            GameState::Paused => Some(Panel::PauseMenu),
            GameState::Upgrading => Some(Panel::UpgradeMenu),
            GameState::GameOver => Some(Panel::GameOverMenu),
        }
    }

    /// Whether the routines of the game itself run in this state. They run
    /// only while the game is running, so the score stands still in every
    /// other state.
    pub fn gameplay_runs(&self) -> (runs: bool)
        ensures
            runs == self.runs_gameplay(),
            runs == (self.panel() is None),
    {
        match self {
            GameState::Running => true,
            _ => false,
        }
    }
}

/// The colour of a button for what the pointer does to it.
pub fn interact_styled_button(interaction: &Interaction) -> (color: Color)
    ensures
        color == match *interaction {
            Interaction::Pressed => ButtonStyle::press_color(),
            Interaction::Hovered => ButtonStyle::hover_color(),
            Interaction::Idle => ButtonStyle::idle_color(),
        },
{
    match interaction {
        Interaction::Pressed => ButtonStyle::press_bg_color(),
        Interaction::Hovered => ButtonStyle::hover_bg_color(),
        Interaction::Idle => ButtonStyle::bg_color(),
    }
}

/// The resume button, pressed, asks for the running game.
pub fn interact_with_resume_button(interaction: &Interaction, next_paused_state: &mut NextState)
    ensures
        *final(next_paused_state) == if *interaction == Interaction::Pressed {
            NextState(Some(GameState::Running))
        } else {
            *old(next_paused_state)
        },
{
    match interaction {
        Interaction::Pressed => {
            next_paused_state.set(GameState::Running);
        },
        _ => {},
    }
}

/// The quit button, pressed, asks to leave the program.
pub fn interact_with_quit_button(interaction: &Interaction) -> (exit: bool)
    ensures
        exit == (*interaction == Interaction::Pressed),
{
    match interaction {
        Interaction::Pressed => true,
        _ => false,
    }
}

/// The reset button, pressed, starts the session anew.
///
/// The game is asked to run, score and experience start again from zero, and
/// the result is the fresh player to put into the world. The caller removes
/// every entity that is marked for removal on reset. If the button is not
/// pressed nothing changes.
pub fn interact_with_reset_button(
    interaction: &Interaction,
    next_paused_state: &mut NextState,
    score: &mut PlayerScore,
    exp: &mut PlayerExperience,
) -> (player: Option<PlayerBundle>)
    ensures
        *interaction == Interaction::Pressed ==> {
            &&& *final(next_paused_state) == NextState(Some(GameState::Running))
            &&& *final(score) == PlayerScore(0)
            &&& *final(exp) == PlayerExperience(0)
            &&& player is Some
            &&& player->0.is_fresh()
        },
        *interaction != Interaction::Pressed ==> {
            &&& *final(next_paused_state) == *old(next_paused_state)
            &&& *final(score) == *old(score)
            &&& *final(exp) == *old(exp)
            &&& player is None
        },
{
    match interaction {
        Interaction::Pressed => {
            next_paused_state.set(GameState::Running);
            *score = PlayerScore(0);
            *exp = PlayerExperience(0);
            Some(PlayerBundle::default())
        },
        _ => None,
    }
}

} // verus!
