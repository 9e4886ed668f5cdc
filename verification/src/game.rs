use vstd::prelude::*;

verus! {

/// Top-level phase of the program: first the color-picking start screen,
/// then the opening scene with the room walkthrough.
#[derive(Copy, Clone, Debug, PartialEq, Eq, Structural)]
pub enum GameState {
    GameStart,
    Opening,
}

impl GameState {
    /// The phase that follows once every scene of the current phase reports
    /// that it is finished.
    pub fn get_next_state(&self) -> (next: GameState)
        ensures
            *self == GameState::GameStart ==> next == GameState::Opening,
            *self == GameState::Opening ==> next == GameState::GameStart,
    {
        match self {
            GameState::GameStart => GameState::Opening,
            GameState::Opening => GameState::GameStart,
        }
    }
}

} // verus!
