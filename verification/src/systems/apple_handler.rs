//! Food: eating, and finding the food a new cell that the snake does not
//! hold.

use vstd::prelude::*;

use crate::board::in_playable_area;
use crate::chain::advanced;
use crate::components::game_position::Position;
use crate::snake::{
    Direction, GameState, SnakeGame, ARENA_PLAYABLE_HEIGHT, ARENA_PLAYABLE_WIDTH,
};

verus! {

/// The number of cells inside the walls.
pub const PLAYABLE_CELLS: usize = 1500;

/// How many cells are drawn at random before the food is placed by one
/// draw among the free cells.
pub const RELOCATION_ATTEMPTS: u32 = 64;

/// The cells inside the walls, numbered row by row from the bottom left.
pub open spec fn cell_at(index: int) -> Position {
    Position {
        x: (index % (ARENA_PLAYABLE_WIDTH as int) + 1) as i32,
        y: (index / (ARENA_PLAYABLE_WIDTH as int) + 1) as i32,
    }
}

/// The number of a cell inside the walls.
pub open spec fn index_of(position: Position) -> int {
    (position.y - 1) * ARENA_PLAYABLE_WIDTH + (position.x - 1)
}

/// Whether the cell lies inside the walls and no segment of the snake is on it.
pub open spec fn is_free(snake_positions: Seq<Position>, position: Position) -> bool {
    in_playable_area(position) && !snake_positions.contains(position)
}

/// The number of free cells among the first `end` cells inside the walls.
pub open spec fn count_free(snake_positions: Seq<Position>, end: int) -> int
    decreases end,
{
    if end <= 0 {
        0
    } else {
        count_free(snake_positions, end - 1) + (if is_free(snake_positions, cell_at(end - 1)) {
            1int
        } else {
            0int
        })
    }
}

/// The numbering of the cells inside the walls is one to one: every number
/// below [`PLAYABLE_CELLS`] is the number of the cell it names, and every
/// cell inside the walls is the cell that its number names.
pub proof fn lemma_cell_numbering(index: int, position: Position)
    ensures
        PLAYABLE_CELLS == ARENA_PLAYABLE_WIDTH * ARENA_PLAYABLE_HEIGHT,
        0 <= index < PLAYABLE_CELLS ==> in_playable_area(cell_at(index)) && index_of(
            cell_at(index),
        ) == index,
        in_playable_area(position) ==> 0 <= index_of(position) < PLAYABLE_CELLS && cell_at(
            index_of(position),
        ) == position,
{
}

/// Food that the snake has not reached with its move lies as free after
/// the move as it did before.
pub proof fn lemma_move_keeps_food_free(
    positions: Seq<Position>,
    direction: Direction,
    grow: bool,
    food: Position,
)
    requires
        positions.len() >= 1,
        is_free(positions, food),
        advanced(positions, direction, grow)[0] != food,
    ensures
        is_free(advanced(positions, direction, grow), food),
{
    let after = advanced(positions, direction, grow);
    if after.contains(food) {
        let i = choose|i: int| 0 <= i < after.len() && after[i] == food;
        assert(positions[i - 1] == food);
    }
}

/// Where there is no free cell among the first `end`, each of them is taken;
/// and there are never more free cells than cells.
proof fn lemma_count_free(snake_positions: Seq<Position>, end: int)
    requires
        0 <= end,
    ensures
        0 <= count_free(snake_positions, end) <= end,
        count_free(snake_positions, end) == 0 ==> forall|index: int|
            0 <= index < end ==> !is_free(snake_positions, #[trigger] cell_at(index)),
    decreases end,
{
    if end > 0 {
        lemma_count_free(snake_positions, end - 1);
    }
}

/// Counting further never lowers the count.
proof fn lemma_count_free_monotonic(snake_positions: Seq<Position>, from: int, to: int)
    requires
        0 <= from <= to,
    ensures
        count_free(snake_positions, from) <= count_free(snake_positions, to),
    decreases to - from,
{
    if from < to {
        lemma_count_free_monotonic(snake_positions, from, to - 1);
    }
}

/// A number drawn at random from `0` up to, not including, `bound`.
///
/// This calls `rand::Rng::gen_range` with the bounds `0` and `bound` on the
/// generator that `rand::thread_rng` hands out, and nothing here is proved
/// of it. What is taken on trust is what `gen_range` documents: the result
/// is at least the lower bound and below the upper one. The draw differs
/// from call to call, so nothing more is said of it. `gen_range` panics
/// where the lower bound is not below the upper one, which `bound > 0`
/// rules out.
#[verifier::external_body]
fn random_below(bound: i32) -> (r: i32)
    requires
        bound > 0,
    ensures
        0 <= r < bound,
{
    rand::Rng::gen_range(&mut rand::thread_rng(), 0, bound)
}

/// For each cell inside the walls, by its number, whether a segment of the
/// snake is on it.
fn occupied_cells(snake_positions: &Vec<Position>) -> (occupied: Vec<bool>)
    ensures
        occupied@.len() == PLAYABLE_CELLS,
        forall|index: int|
            0 <= index < PLAYABLE_CELLS ==> #[trigger] occupied@[index] == snake_positions@.contains(
                cell_at(index),
            ),
{
    let mut occupied: Vec<bool> = Vec::new();
    let mut index: usize = 0;
    while index < PLAYABLE_CELLS
        invariant
            index <= PLAYABLE_CELLS,
            occupied@.len() == index,
            forall|j: int| 0 <= j < index ==> !#[trigger] occupied@[j],
        decreases PLAYABLE_CELLS - index,
    {
        occupied.push(false);
        index = index + 1;
    }
    let n: usize = snake_positions.len();
    let mut i: usize = 0;
    while i < n
        invariant
            n == snake_positions@.len(),
            i <= n,
            occupied@.len() == PLAYABLE_CELLS,
            forall|index: int|
                0 <= index < PLAYABLE_CELLS ==> #[trigger] occupied@[index]
                    == snake_positions@.take(i as int).contains(cell_at(index)),
        decreases n - i,
    {
        let position: Position = snake_positions[i];
        if 1 <= position.x && position.x <= ARENA_PLAYABLE_WIDTH && 1 <= position.y && position.y
            <= ARENA_PLAYABLE_HEIGHT {
            let cell: usize = ((position.y - 1) * ARENA_PLAYABLE_WIDTH + (position.x - 1)) as usize;
            occupied.set(cell, true);
        }
        proof {
            let before = snake_positions@.take(i as int);
            let after = snake_positions@.take(i + 1);
            assert forall|index: int| 0 <= index < PLAYABLE_CELLS implies #[trigger] occupied@[index]
                == after.contains(cell_at(index)) by {
                lemma_cell_numbering(index, position);
                if before.contains(cell_at(index)) {
                    let j = choose|j: int| 0 <= j < before.len() && before[j] == cell_at(index);
                    assert(after[j] == cell_at(index));
                }
                if cell_at(index) == position {
                    assert(after[i as int] == cell_at(index));
                }
            }
        }
        i = i + 1;
    }
    assert(snake_positions@.take(n as int) =~= snake_positions@);
    occupied
}

/// The number of cells inside the walls that the snake does not hold.
pub fn free_cell_count(snake_positions: &Vec<Position>) -> (free: usize)
    ensures
        free == count_free(snake_positions@, PLAYABLE_CELLS as int),
{
    let occupied: Vec<bool> = occupied_cells(snake_positions);
    count_unoccupied(snake_positions, &occupied)
}

fn count_unoccupied(snake_positions: &Vec<Position>, occupied: &Vec<bool>) -> (free: usize)
    requires
        occupied@.len() == PLAYABLE_CELLS,
        forall|index: int|
            0 <= index < PLAYABLE_CELLS ==> #[trigger] occupied@[index] == snake_positions@.contains(
                cell_at(index),
            ),
    ensures
        free == count_free(snake_positions@, PLAYABLE_CELLS as int),
{
    let mut free: usize = 0;
    let mut index: usize = 0;
    while index < PLAYABLE_CELLS
        invariant
            index <= PLAYABLE_CELLS,
            occupied@.len() == PLAYABLE_CELLS,
            forall|index: int|
                0 <= index < PLAYABLE_CELLS ==> #[trigger] occupied@[index]
                    == snake_positions@.contains(cell_at(index)),
            free == count_free(snake_positions@, index as int),
            free <= index,
        decreases PLAYABLE_CELLS - index,
    {
        proof {
            lemma_cell_numbering(index as int, cell_at(index as int));
        }
        if !occupied[index] {
            free = free + 1;
        }
        index = index + 1;
    }
    free
}

/// Whether `candidate` can take the food: it lies inside the walls and no
/// segment of the snake is on it.
pub fn is_free_cell(snake_positions: &Vec<Position>, candidate: &Position) -> (r: bool)
    ensures
        r == is_free(snake_positions@, *candidate),
{
    if !(1 <= candidate.x && candidate.x <= ARENA_PLAYABLE_WIDTH && 1 <= candidate.y && candidate.y
        <= ARENA_PLAYABLE_HEIGHT) {
        return false;
    }
    let n: usize = snake_positions.len();
    let mut i: usize = 0;
    while i < n
        invariant
            n == snake_positions@.len(),
            i <= n,
            forall|j: int| 0 <= j < i ==> snake_positions@[j] != *candidate,
        decreases n - i,
    {
        if snake_positions[i] == *candidate {
            return false;
        }
        i = i + 1;
    }
    true
}

/// The free cell that has exactly `k` free cells before it, counting the
/// cells inside the walls row by row from the bottom left; none where
/// there are no more than `k` free cells.
pub fn nth_free_cell(snake_positions: &Vec<Position>, k: usize) -> (r: Option<Position>)
    ensures
        r is Some <==> k < count_free(snake_positions@, PLAYABLE_CELLS as int),
        r matches Some(position) ==> {
            &&& is_free(snake_positions@, position)
            &&& count_free(snake_positions@, index_of(position)) == k
        },
{
    let occupied: Vec<bool> = occupied_cells(snake_positions);
    let mut seen: usize = 0;
    let mut index: usize = 0;
    while index < PLAYABLE_CELLS
        invariant
            index <= PLAYABLE_CELLS,
            occupied@.len() == PLAYABLE_CELLS,
            forall|index: int|
                0 <= index < PLAYABLE_CELLS ==> #[trigger] occupied@[index]
                    == snake_positions@.contains(cell_at(index)),
            seen == count_free(snake_positions@, index as int),
            seen <= index,
            seen <= k,
        decreases PLAYABLE_CELLS - index,
    {
        proof {
            lemma_cell_numbering(index as int, cell_at(index as int));
        }
        if !occupied[index] {
            if seen == k {
                let width: usize = ARENA_PLAYABLE_WIDTH as usize;
                let position = Position {
                    x: (index % width) as i32 + 1,
                    y: (index / width) as i32 + 1,
                };
                proof {
                    lemma_count_free_monotonic(
                        snake_positions@,
                        index as int + 1,
                        PLAYABLE_CELLS as int,
                    );
                }
                return Some(position);
            }
            seen = seen + 1;
        }
        index = index + 1;
    }
    None
}

/// Picks the cell that the food moves to: a cell inside the walls that the
/// snake does not hold, each such cell being as likely as any other.
///
/// Cells are drawn at random from inside the walls until one is free. So
/// that the search ends whatever is drawn, after [`RELOCATION_ATTEMPTS`]
/// draws the cell is taken with one draw among the free cells instead.
/// Where the snake fills the board there is no cell to pick.
pub fn get_new_apple_position(snake_positions: &Vec<Position>) -> (r: Option<Position>)
    ensures
        r is Some <==> exists|position: Position| is_free(snake_positions@, position),
        r matches Some(position) ==> is_free(snake_positions@, position),
{
    let free: usize = free_cell_count(snake_positions);
    proof {
        lemma_count_free(snake_positions@, PLAYABLE_CELLS as int);
    }
    if free == 0 {
        assert forall|position: Position| !is_free(snake_positions@, position) by {
            lemma_cell_numbering(0, position);
        }
        return None;
    }
    let mut attempts: u32 = 0;
    while attempts < RELOCATION_ATTEMPTS
        invariant
            attempts <= RELOCATION_ATTEMPTS,
        decreases RELOCATION_ATTEMPTS - attempts,
    {
        let x: i32 = random_below(ARENA_PLAYABLE_WIDTH) + 1;
        let y: i32 = random_below(ARENA_PLAYABLE_HEIGHT) + 1;
        let candidate = Position { x, y };
        if is_free_cell(snake_positions, &candidate) {
            return Some(candidate);
        }
        attempts = attempts + 1;
    }
    let k: i32 = random_below(free as i32);
    nth_free_cell(snake_positions, k as usize)
}

/// Lets the snake eat.
pub struct AppleHandlerSystem;

impl AppleHandlerSystem {
    /// Looks whether the head is on the food. If it is not, nothing
    /// changes. If it is, the snake has eaten: the flag that makes it grow
    /// in its next move is set, and the food moves to a cell inside the
    /// walls that no segment holds. Where the snake leaves no such cell,
    /// the food stays and the game is over.
    pub fn run(&self, game: &mut SnakeGame)
        requires
            old(game).wf(),
        ensures
            final(game).snake == old(game).snake,
            final(game).next_direction == old(game).next_direction,
            old(game).snake@[0] != old(game).apple.position ==> {
                &&& final(game).apple == old(game).apple
                &&& final(game).apple_was_eaten == old(game).apple_was_eaten
                &&& final(game).game_state == old(game).game_state
            },
            old(game).snake@[0] == old(game).apple.position ==> {
                &&& final(game).apple_was_eaten.was_eaten
                &&& if exists|position: Position| is_free(old(game).snake@, position) {
                    &&& is_free(old(game).snake@, final(game).apple.position)
                    &&& final(game).game_state == old(game).game_state
                } else {
                    &&& final(game).apple == old(game).apple
                    &&& final(game).game_state == GameState::GameOver
                }
            },
    {
        let snake_head_position: Position = game.snake.head_position();
        let snake_ate_apple: bool = snake_head_position == game.apple.position;
        if snake_ate_apple {
            let snake_positions: Vec<Position> = game.snake.positions();
            match get_new_apple_position(&snake_positions) {
                Some(new_apple_position) => {
                    game.apple.position = new_apple_position;
                },
                None => {
                    game.game_state = GameState::GameOver;
                },
            }
            game.apple_was_eaten.was_eaten = true;
        }
    }
}

} // verus!
