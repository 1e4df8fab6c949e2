//! Top-level game state.

use vstd::prelude::*;

verus! {

/// The state gating when the player entity exists: the game starts in the
/// main menu and moves, one-directionally, into the level.
#[derive(Clone, Copy, PartialEq, Eq, Structural, Debug)]
pub enum GameState {
    MainMenu,
    InLevel,
}

impl Default for GameState {
    /// The game opens in the main menu.
    fn default() -> (r: GameState)
        ensures
            r == GameState::MainMenu,
    {
        GameState::MainMenu
    }
}

/// The one transition the game takes: into the level. It never goes back.
pub fn enter_level(state: &mut GameState)
    ensures
        *final(state) == GameState::InLevel,
{
    *state = GameState::InLevel;
}

} // verus!
