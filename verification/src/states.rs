//! The state of the session.

use vstd::prelude::*;

verus! {

/// What the session is doing.
#[derive(Clone, Copy, Debug, PartialEq, Eq, Hash, Structural)]
pub enum GameState {
    Running,
    Paused,
    Upgrading,
    GameOver,
}

/// The state asked for, which the engine enters before the next frame.
#[derive(Clone, Copy, Debug, PartialEq, Eq, Structural)]
pub struct NextState(pub Option<GameState>);

/// The groups that the gameplay routines run in.
#[derive(Clone, Copy, Debug, PartialEq, Eq, Hash, Structural)]
pub enum GameplaySet {
    Enemies,
    Player,
    Bullets,
    Global,
}

/// The groups that the input routines run in.
#[derive(Clone, Copy, Debug, PartialEq, Eq, Hash, Structural)]
pub enum InputSet {
    Mouse,
    Keyboard,
}

impl Default for GameState {
    /// A session starts running.
    fn default() -> (state: GameState)
        ensures
            state == GameState::Running,
    {
        GameState::Running
    }
}

impl GameState {
    /// The gameplay routines run only while the session is running.
    pub open spec fn runs_gameplay(self) -> bool {
        self == GameState::Running
    }
}

impl NextState {
    /// The state the session is in once the engine has applied the request.
    pub open spec fn applied_to(self, current: GameState) -> GameState {
        match self.0 {
            Some(state) => state,
            None => current,
        }
    }

    /// Asks for `state`; a later request replaces an earlier one.
    pub fn set(&mut self, state: GameState)
        ensures
            *final(self) == NextState(Some(state)),
    {
        self.0 = Some(state);
    }

    /// Hands out the requested state, if any, and forgets the request.
    pub fn apply(&mut self, current: GameState) -> (now: GameState)
        ensures
            now == old(self).applied_to(current),
            *final(self) == NextState(None),
    {
        let now = match self.0 {
            Some(state) => state,
            None => current,
        };
        self.0 = None;
        now
    }
}

} // verus!
