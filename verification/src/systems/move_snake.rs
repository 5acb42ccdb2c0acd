//! Movement: one step of the snake each time the interval has passed.

use vstd::prelude::*;

use crate::chain::advanced;
use crate::components::game_position::Position;
use crate::snake::{Direction, NextDirection, SnakeGame};

verus! {

/// The snake moves once the clock has gone past this many milliseconds.
pub const MOVE_INTERVAL_MS: u64 = 200;

/// The clock after `delta_ms` more milliseconds. It stops at the largest
/// value it can hold.
pub open spec fn clock_after(next_direction: NextDirection, delta_ms: u64) -> u64 {
    next_direction.time_since_last_action.saturating_add(delta_ms)
}

/// Whether the snake moves in a tick that comes `delta_ms` after the last one.
pub open spec fn move_is_due(next_direction: NextDirection, delta_ms: u64) -> bool {
    clock_after(next_direction, delta_ms) > MOVE_INTERVAL_MS
}

/// Moves the snake at a fixed pace.
pub struct MoveSnakeSystem;

impl MoveSnakeSystem {
    /// Lets `delta_ms` milliseconds pass. While the clock has not gone past
    /// the interval, only the clock changes. Once it has, the snake moves
    /// one cell in the buffered direction, as [`advanced`] says, and the
    /// clock starts again from zero. If the snake has eaten since its last
    /// move, it grows by one segment in this move, and the flag is cleared.
    ///
    /// The head's new coordinates must fit in `i32`.
    pub fn run(&self, game: &mut SnakeGame, delta_ms: u64)
        requires
            old(game).wf(),
            move_is_due(old(game).next_direction, delta_ms) ==> old(game).snake@[0].can_shift(
                old(game).next_direction.direction,
            ),
        ensures
            final(game).wf(),
            final(game).apple == old(game).apple,
            final(game).game_state == old(game).game_state,
            final(game).next_direction.direction == old(game).next_direction.direction,
            final(game).snake.spec_head() == old(game).snake.spec_head(),
            if move_is_due(old(game).next_direction, delta_ms) {
                &&& final(game).snake@ == advanced(
                    old(game).snake@,
                    old(game).next_direction.direction,
                    old(game).apple_was_eaten.was_eaten,
                )
                &&& final(game).snake.order() == (if old(game).apple_was_eaten.was_eaten {
                    old(game).snake.order().push(old(game).snake.arena().len() as usize)
                } else {
                    old(game).snake.order()
                })
                &&& !final(game).apple_was_eaten.was_eaten
                &&& final(game).next_direction.time_since_last_action == 0
            } else {
                &&& final(game).snake == old(game).snake
                &&& final(game).apple_was_eaten == old(game).apple_was_eaten
                &&& final(game).next_direction.time_since_last_action == clock_after(
                    old(game).next_direction,
                    delta_ms,
                )
            },
    {
        let direction: Direction = game.next_direction.direction;
        let elapsed: u64 = game.next_direction.time_since_last_action.saturating_add(delta_ms);
        if elapsed > MOVE_INTERVAL_MS {
            let grow: bool = game.apple_was_eaten.was_eaten;
            game.snake.advance(direction, grow);
            game.apple_was_eaten.was_eaten = false;
            game.next_direction.time_since_last_action = 0;
        } else {
            game.next_direction.time_since_last_action = elapsed;
        }
    }
}

/// The cells of the snake after a run of ticks. Each tick either moves the
/// snake in a direction or, coming before the interval has passed, leaves
/// it where it is. `pending` says whether the snake has eaten and not
/// grown for it yet; the first move uses that up.
pub open spec fn after_ticks(
    positions: Seq<Position>,
    pending: bool,
    ticks: Seq<Option<Direction>>,
) -> Seq<Position>
    decreases ticks.len(),
{
    if ticks.len() == 0 {
        positions
    } else {
        match ticks[0] {
            Some(direction) => after_ticks(
                advanced(positions, direction, pending),
                false,
                ticks.drop_first(),
            ),
            None => after_ticks(positions, pending, ticks.drop_first()),
        }
    }
}

/// Whether the snake moves in one of the ticks.
pub open spec fn moves_in(ticks: Seq<Option<Direction>>) -> bool {
    exists|i: int| 0 <= i < ticks.len() && #[trigger] ticks[i] is Some
}

/// Each meal lengthens the snake by exactly one segment, however many
/// ticks pass before the next meal: a snake that has eaten is one segment
/// longer from its next move on, whatever number of ticks comes before
/// and after that move, and a snake that has not eaten keeps its length.
pub proof fn lemma_one_segment_per_meal(
    positions: Seq<Position>,
    pending: bool,
    ticks: Seq<Option<Direction>>,
)
    ensures
        after_ticks(positions, pending, ticks).len() == positions.len() + (if pending && moves_in(
            ticks,
        ) {
            1int
        } else {
            0int
        }),
    decreases ticks.len(),
{
    if ticks.len() > 0 {
        let rest = ticks.drop_first();
        if moves_in(rest) {
            let i = choose|i: int| 0 <= i < rest.len() && #[trigger] rest[i] is Some;
            assert(ticks[i + 1] is Some);
        }
        if moves_in(ticks) && ticks[0] is None {
            let i = choose|i: int| 0 <= i < ticks.len() && #[trigger] ticks[i] is Some;
            assert(rest[i - 1] is Some);
        }
        match ticks[0] {
            Some(direction) => {
                lemma_one_segment_per_meal(
                    advanced(positions, direction, pending),
                    false,
                    rest,
                );
            },
            None => {
                lemma_one_segment_per_meal(positions, pending, rest);
            },
        }
    }
}

} // verus!
