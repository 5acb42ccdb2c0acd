//! Collision: the end of the game when the head runs into a wall or into
//! the snake itself.

use vstd::prelude::*;

use crate::board::{hits_wall, in_playable_area, is_wall};
use crate::chain::{advanced, overlaps_itself};
use crate::components::game_position::Position;
use crate::snake::{Direction, GameState, SnakeGame};

verus! {

/// Whether the head of a snake on these cells has run into a wall or into
/// another segment.
pub open spec fn collides(positions: Seq<Position>) -> bool {
    overlaps_itself(positions) || hits_wall(positions[0])
}

/// Ends the game on a collision.
pub struct SnakeCollisionSystem;

impl SnakeCollisionSystem {
    /// Looks at where the head is now. If it is on or beyond a wall, or on
    /// a cell that another segment holds, the game is over, whichever of
    /// the two it was. Otherwise nothing changes. A game that is over
    /// stays over.
    pub fn run(&self, game: &mut SnakeGame)
        requires
            old(game).wf(),
        ensures
            final(game).game_state == (if collides(old(game).snake@) {
                GameState::GameOver
            } else {
                old(game).game_state
            }),
            final(game).snake == old(game).snake,
            final(game).apple == old(game).apple,
            final(game).next_direction == old(game).next_direction,
            final(game).apple_was_eaten == old(game).apple_was_eaten,
    {
        let mut collision: bool = game.snake.head_overlaps_body();
        let pos: Position = game.snake.head_position();
        if !collision && is_wall(&pos) {
            collision = true;
        }
        if collision {
            game.game_state = GameState::GameOver;
        }
    }
}

/// Whether the cell that the head moves to in `direction` is held, after
/// the move, by another segment: by one that moves onto it, which is any
/// segment's predecessor but the head, or by a tail that has just grown
/// there.
pub open spec fn lands_on_body(positions: Seq<Position>, direction: Direction, grow: bool) -> bool {
    exists|i: int|
        0 <= i < positions.len() - (if grow {
            0int
        } else {
            1int
        }) && #[trigger] positions[i] == positions[0].shifted(direction)
}

/// A head on the edge of the playable area that moves outward has run into
/// the wall once the snake has moved.
pub proof fn lemma_moving_outward_hits_wall(
    positions: Seq<Position>,
    direction: Direction,
    grow: bool,
)
    requires
        positions.len() >= 1,
        in_playable_area(positions[0]),
        !in_playable_area(positions[0].shifted(direction)),
    ensures
        hits_wall(advanced(positions, direction, grow)[0]),
        collides(advanced(positions, direction, grow)),
{
}

/// The snake has run into itself after a move exactly if its head has
/// moved onto a cell that another segment holds after that move.
pub proof fn lemma_self_collision_on_landing(
    positions: Seq<Position>,
    direction: Direction,
    grow: bool,
)
    requires
        positions.len() >= 1,
    ensures
        overlaps_itself(advanced(positions, direction, grow)) <==> lands_on_body(
            positions,
            direction,
            grow,
        ),
        lands_on_body(positions, direction, grow) ==> collides(
            advanced(positions, direction, grow),
        ),
{
    let after = advanced(positions, direction, grow);
    if overlaps_itself(after) {
        let i = choose|i: int| 1 <= i < after.len() && #[trigger] after[i] == after[0];
        assert(positions[i - 1] == positions[0].shifted(direction));
    }
    if lands_on_body(positions, direction, grow) {
        let i = choose|i: int|
            0 <= i < positions.len() - (if grow {
                0int
            } else {
                1int
            }) && #[trigger] positions[i] == positions[0].shifted(direction);
        assert(after[i + 1] == after[0]);
    }
}

/// A snake whose segments are all on different cells still has them on
/// different cells after a move, unless the head has run into the body.
pub proof fn lemma_move_keeps_cells_distinct(
    positions: Seq<Position>,
    direction: Direction,
    grow: bool,
)
    requires
        positions.len() >= 1,
        positions.no_duplicates(),
        !overlaps_itself(advanced(positions, direction, grow)),
    ensures
        advanced(positions, direction, grow).no_duplicates(),
{
    let after = advanced(positions, direction, grow);
    assert forall|i: int, j: int|
        0 <= i < after.len() && 0 <= j < after.len() && i != j implies after[i] != after[j] by {
        if i >= 1 && j >= 1 {
            assert(after[i] == positions[i - 1] && after[j] == positions[j - 1]);
        }
    }
}

} // verus!
