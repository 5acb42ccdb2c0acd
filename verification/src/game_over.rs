//! The pause after a lost game, before the next one starts.

use vstd::prelude::*;

use crate::snake::Transition;

verus! {

/// A new game starts once the game-over screen has been up for longer than
/// this many milliseconds.
pub const GAME_OVER_DWELL_MS: u64 = 2000;

/// The game-over screen, with the time in milliseconds that it has been up.
#[derive(Clone, Copy, Debug, PartialEq, Eq, Structural)]
pub struct GameOverState {
    pub time: u64,
}

impl GameOverState {
    /// The screen as it comes up, its clock at zero.
    pub fn on_start() -> (state: GameOverState)
        ensures
            state.time == 0,
    {
        GameOverState { time: 0 }
    }

    /// Lets `delta_ms` milliseconds pass, and asks for a new game once the
    /// screen has been up for longer than [`GAME_OVER_DWELL_MS`]. The clock
    /// stops at the largest value it can hold.
    pub fn update(&mut self, delta_ms: u64) -> (r: Transition)
        ensures
            final(self).time == old(self).time.saturating_add(delta_ms),
            r == (if final(self).time > GAME_OVER_DWELL_MS {
                Transition::ReplaceWithSnakeGame
            } else {
                Transition::Continue
            }),
    {
        self.time = self.time.saturating_add(delta_ms);
        if self.time > GAME_OVER_DWELL_MS {
            Transition::ReplaceWithSnakeGame
        } else {
            Transition::Continue
        }
    }
}

} // verus!
