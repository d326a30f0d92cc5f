//! The game's top-level state machine: running, paused, at the main menu,
//! or over. The pause and resume transitions fold in the state under which
//! the engine's scheduler runs them; the end-game key is scheduled in every
//! state. So the whole machine is stated here.

use vstd::prelude::*;

verus! {

/// The four states the game can be in.
#[derive(Clone, Copy, Debug, PartialEq, Eq, Structural)]
pub enum AppState {
    Running,
    Paused,
    MainMenu,
    GameOver,
}

impl Default for AppState {
    /// A fresh game starts running.
    fn default() -> (r: Self)
        ensures
            r == AppState::Running,
    {
        AppState::Running
    }
}

/// While running, the escape key pauses the game; anything else leaves the
/// state alone.
pub fn pause_game(state: &AppState, escape_just_pressed: bool) -> (next: AppState)
    ensures
        next == (if *state == AppState::Running && escape_just_pressed {
            AppState::Paused
        } else {
            *state
        }),
{
    if *state == AppState::Running && escape_just_pressed {
        AppState::Paused
    } else {
        *state
    }
}

/// While paused, the escape key resumes the game.
pub fn unpause_game(state: &AppState, escape_just_pressed: bool) -> (next: AppState)
    ensures
        next == (if *state == AppState::Paused && escape_just_pressed {
            AppState::Running
        } else {
            *state
        }),
{
    if *state == AppState::Paused && escape_just_pressed {
        AppState::Running
    } else {
        *state
    }
}

/// The end-game key ends the game at once, from any state.
pub fn end_game(state: &AppState, end_key_just_pressed: bool) -> (next: AppState)
    ensures
        next == (if end_key_just_pressed {
            AppState::GameOver
        } else {
            *state
        }),
{
    if end_key_just_pressed {
        AppState::GameOver
    } else {
        *state
    }
}

} // verus!
