//! A whole session: one game after another, with the game-over screen
//! between them.

use vstd::prelude::*;

use crate::game_over::{GameOverState, GAME_OVER_DWELL_MS};
use crate::snake::{GameState, SnakeGame, Transition};
use crate::systems::input::ActionsDown;

verus! {

/// What a session is showing: a running game, or the game-over screen.
pub enum Session {
    Playing(SnakeGame),
    GameOver(GameOverState),
}

impl Session {
    /// A game that is being shown is on, its chain is intact, and it is
    /// [in play](SnakeGame::in_play).
    pub open spec fn wf(&self) -> bool {
        match self {
            Session::Playing(game) => game.wf() && game.in_play() && game.game_state
                == GameState::Playing,
            Session::GameOver(_) => true,
        }
    }

    /// A session at its start: a fresh game.
    pub fn on_start() -> (session: Session)
        ensures
            session.wf(),
            session matches Session::Playing(game) && game.is_fresh(),
    {
        Session::Playing(SnakeGame::on_start())
    }

    /// One tick of the session, `delta_ms` after the last one, with
    /// `actions` held down.
    ///
    /// A running game goes through one tick. If that ends it, the game-over
    /// screen comes up with its clock at zero. The game-over screen stays
    /// until it has been up for longer than [`GAME_OVER_DWELL_MS`], and is
    /// then followed by a fresh game.
    pub fn tick(&mut self, actions: &ActionsDown, delta_ms: u64)
        requires
            old(self).wf(),
        ensures
            final(self).wf(),
            match *old(self) {
                Session::Playing(game) => match *final(self) {
                    Session::Playing(next) => !game.is_lost_by(*actions, delta_ms) && game.ticks_to(
                        next,
                        *actions,
                        delta_ms,
                    ),
                    Session::GameOver(screen) => game.is_lost_by(*actions, delta_ms) && screen.time
                        == 0,
                },
                Session::GameOver(screen) => {
                    let time = screen.time.saturating_add(delta_ms);
                    match *final(self) {
                        Session::Playing(next) => time > GAME_OVER_DWELL_MS && next.is_fresh(),
                        Session::GameOver(still) => time <= GAME_OVER_DWELL_MS && still.time
                            == time,
                    }
                },
            },
    {
        let transition: Transition = match self {
            Session::Playing(game) => game.tick(actions, delta_ms),
            Session::GameOver(screen) => screen.update(delta_ms),
        };
        match transition {
            Transition::ReplaceWithGameOver => {
                *self = Session::GameOver(GameOverState::on_start());
            },
            Transition::ReplaceWithSnakeGame => {
                *self = Session::Playing(SnakeGame::on_start());
            },
            _ => {},
        }
    }
}

} // verus!
