//! Board constants and the resources shared by all phases of a tick.

use vstd::prelude::*;

use crate::board::in_playable_area;
use crate::chain::{advanced, init_snake, SnakeChain};
use crate::components::apple::AppleComponent;
use crate::components::game_position::Position;
use crate::systems::apple_handler::{is_free, lemma_move_keeps_food_free, AppleHandlerSystem};
use crate::systems::input::{steered, ActionsDown, InputSystem};
use crate::systems::move_snake::{clock_after, move_is_due, MoveSnakeSystem};
use crate::systems::snake_collision::{
    collides, lemma_move_keeps_cells_distinct, SnakeCollisionSystem,
};
use crate::systems::snake_render::{drawable, lemma_move_keeps_drawable};

verus! {

/// Width of the board in cells, walls included.
pub const ARENA_WIDTH: i32 = 52;

/// Height of the board in cells, walls included.
pub const ARENA_HEIGHT: i32 = 32;

/// Width of the area inside the walls.
pub const ARENA_PLAYABLE_WIDTH: i32 = 50;

/// Height of the area inside the walls.
pub const ARENA_PLAYABLE_HEIGHT: i32 = 30;

/// The sprites of the sheet, in the order in which the sheet holds them.
#[derive(Clone, Copy, Debug, PartialEq, Eq, Structural)]
pub enum SnakeSpritesKeys {
    SnakeHead,
    SnakeBody,
    SnakeTail,
    SnakeTurn,
    Apple,
    Wall,
    Grass,
}

impl SnakeSpritesKeys {
    /// The place of the sprite in the sheet.
    pub open spec fn spec_sprite_number(self) -> usize {
        match self {
            SnakeSpritesKeys::SnakeHead => 0,
            SnakeSpritesKeys::SnakeBody => 1,
            SnakeSpritesKeys::SnakeTail => 2,
            SnakeSpritesKeys::SnakeTurn => 3,
            SnakeSpritesKeys::Apple => 4,
            SnakeSpritesKeys::Wall => 5,
            SnakeSpritesKeys::Grass => 6,
        }
    }

    /// The place of the sprite in the sheet.
    #[verifier::when_used_as_spec(spec_sprite_number)]
    pub fn sprite_number(self) -> (r: usize)
        ensures
            r == self.spec_sprite_number(),
    {
        match self {
            SnakeSpritesKeys::SnakeHead => 0,
            SnakeSpritesKeys::SnakeBody => 1,
            SnakeSpritesKeys::SnakeTail => 2,
            SnakeSpritesKeys::SnakeTurn => 3,
            SnakeSpritesKeys::Apple => 4,
            SnakeSpritesKeys::Wall => 5,
            SnakeSpritesKeys::Grass => 6,
        }
    }
}

/// The direction that the player asked for last, and the time in
/// milliseconds since the snake last moved.
#[derive(Clone, Copy, Debug, PartialEq, Eq, Structural)]
pub struct NextDirection {
    pub direction: Direction,
    pub time_since_last_action: u64,
}

/// Set when the snake has eaten and has not grown for it yet.
#[derive(Clone, Copy, Debug, PartialEq, Eq, Structural)]
pub struct AppleWasEaten {
    pub was_eaten: bool,
}

/// Whether the session is still being played. Once over, it stays over.
#[derive(Clone, Copy, Debug, PartialEq, Eq, Structural)]
pub enum GameState {
    Playing,
    GameOver,
}

/// One of the four directions the snake can be steered in.
#[derive(Clone, Copy, Debug, PartialEq, Eq, Structural)]
pub enum Direction {
    Up,
    Down,
    Right,
    Left,
}

impl Direction {
    /// The direction pointing the other way.
    pub open spec fn spec_opposite(self) -> Direction {
        match self {
            Direction::Up => Direction::Down,
            Direction::Down => Direction::Up,
            Direction::Right => Direction::Left,
            Direction::Left => Direction::Right,
        }
    }

    /// The direction pointing the other way.
    #[verifier::when_used_as_spec(spec_opposite)]
    pub fn opposite(self) -> (r: Direction)
        ensures
            r == self.spec_opposite(),
    {
        match self {
            Direction::Up => Direction::Down,
            Direction::Down => Direction::Up,
            Direction::Right => Direction::Left,
            Direction::Left => Direction::Right,
        }
    }
}

/// What the session does next.
#[derive(Clone, Copy, Debug, PartialEq, Eq, Structural)]
pub enum Transition {
    /// Go on as before.
    Continue,
    /// Leave the program.
    Quit,
    /// The game is lost: show the game-over screen.
    ReplaceWithGameOver,
    /// The game-over screen has been up long enough: start a new game.
    ReplaceWithSnakeGame,
}

/// The food at the start of a session, on `(5, 5)`, and the flag that says
/// that nothing has been eaten yet.
pub fn init_apple() -> (r: (AppleComponent, AppleWasEaten))
    ensures
        r.0.position == (Position { x: 5, y: 5 }),
        !r.1.was_eaten,
{
    (AppleComponent { position: Position { x: 5, y: 5 } }, AppleWasEaten { was_eaten: false })
}

/// A snake on these cells with food on `food` is in good shape for play:
/// the head is inside the walls, no two segments share a cell, the snake can
/// be drawn, and the food lies inside the walls on a cell that the snake
/// does not hold.
pub open spec fn fit_for_play(positions: Seq<Position>, food: Position) -> bool {
    &&& in_playable_area(positions[0])
    &&& positions.no_duplicates()
    &&& drawable(positions)
    &&& is_free(positions, food)
}

/// A head inside the walls can move in every direction without leaving the
/// range of its coordinates.
pub proof fn lemma_fit_for_play_may_move(
    positions: Seq<Position>,
    food: Position,
    direction: Direction,
)
    requires
        fit_for_play(positions, food),
    ensures
        positions[0].can_shift(direction),
{
}

/// After a move that ends without a collision, a snake that was fit for
/// play still is: with its old food if the head has not reached it, and
/// with any free cell as its new food.
pub proof fn lemma_move_keeps_fit_for_play(
    positions: Seq<Position>,
    direction: Direction,
    grow: bool,
    food: Position,
)
    requires
        fit_for_play(positions, food),
        !collides(advanced(positions, direction, grow)),
    ensures
        ({
            let cells = advanced(positions, direction, grow);
            &&& cells[0] != food ==> fit_for_play(cells, food)
            &&& forall|new_food: Position|
                is_free(cells, new_food) ==> fit_for_play(cells, new_food)
        }),
{
    let cells = advanced(positions, direction, grow);
    lemma_move_keeps_drawable(positions, direction, grow);
    lemma_move_keeps_cells_distinct(positions, direction, grow);
    if cells[0] != food {
        lemma_move_keeps_food_free(positions, direction, grow, food);
    }
}

/// All that a session keeps between ticks: the snake, the food, and the
/// resources that the phases of a tick share.
pub struct SnakeGame {
    pub snake: SnakeChain,
    pub apple: AppleComponent,
    pub next_direction: NextDirection,
    pub apple_was_eaten: AppleWasEaten,
    pub game_state: GameState,
}

impl SnakeGame {
    /// The snake's chain is intact.
    pub open spec fn wf(&self) -> bool {
        self.snake.wf()
    }

    /// While the game is on, the snake and the food are [`fit_for_play`].
    /// This holds at the start of a session and after every tick.
    pub open spec fn in_play(&self) -> bool {
        self.game_state == GameState::Playing ==> fit_for_play(self.snake@, self.apple.position)
    }

    /// The game is as a session starts it: the snake of [`init_snake`]
    /// facing right, the food of [`init_apple`], nothing eaten, the clock
    /// at zero, the game on.
    pub open spec fn is_fresh(&self) -> bool {
        &&& self.snake@ == seq![
            Position { x: 12, y: 10 },
            Position { x: 11, y: 10 },
            Position { x: 10, y: 10 },
        ]
        &&& self.snake.order() == seq![2usize, 1usize, 0usize]
        &&& self.apple.position == (Position { x: 5, y: 5 })
        &&& self.next_direction == (NextDirection {
            direction: Direction::Right,
            time_since_last_action: 0,
        })
        &&& !self.apple_was_eaten.was_eaten
        &&& self.game_state == GameState::Playing
    }

    /// A fresh game, see [`SnakeGame::is_fresh`].
    pub fn on_start() -> (game: SnakeGame)
        ensures
            game.wf(),
            game.is_fresh(),
            game.in_play(),
    {
        let snake: SnakeChain = init_snake();
        let (apple, apple_was_eaten) = init_apple();
        SnakeGame {
            snake,
            apple,
            next_direction: NextDirection {
                direction: Direction::Right,
                time_since_last_action: 0,
            },
            apple_was_eaten,
            game_state: GameState::Playing,
        }
    }

    /// The cells of the snake after the movement phase of a tick that
    /// comes `delta_ms` after the last one, with `actions` held down.
    pub open spec fn cells_after_move(&self, actions: ActionsDown, delta_ms: u64) -> Seq<
        Position,
    > {
        if move_is_due(self.next_direction, delta_ms) {
            advanced(
                self.snake@,
                steered(self.next_direction.direction, actions),
                self.apple_was_eaten.was_eaten,
            )
        } else {
            self.snake@
        }
    }

    /// Whether a tick that comes `delta_ms` after the last one, with
    /// `actions` held down, ends this running game: by a collision after
    /// the move, or by a meal that leaves the food no free cell.
    pub open spec fn is_lost_by(&self, actions: ActionsDown, delta_ms: u64) -> bool {
        let cells = self.cells_after_move(actions, delta_ms);
        collides(cells) || (cells[0] == self.apple.position && !exists|position: Position|
            is_free(cells, position))
    }

    /// `after` is what a tick that comes `delta_ms` after the last one, with
    /// `actions` held down, can make of this running game. All of `after`
    /// follows from the game before but the cell that the food moves to
    /// when it is eaten, which is some cell inside the walls that the snake
    /// does not hold.
    pub open spec fn ticks_to(
        &self,
        after: SnakeGame,
        actions: ActionsDown,
        delta_ms: u64,
    ) -> bool {
        let due = move_is_due(self.next_direction, delta_ms);
        let cells = self.cells_after_move(actions, delta_ms);
        let eats = cells[0] == self.apple.position;
        let lost = self.is_lost_by(actions, delta_ms);
        &&& after.next_direction.direction == steered(self.next_direction.direction, actions)
        &&& after.next_direction.time_since_last_action == (if due {
            0
        } else {
            clock_after(self.next_direction, delta_ms)
        })
        &&& after.snake@ == cells
        &&& after.snake.spec_head() == self.snake.spec_head()
        &&& after.snake.order() == (if due && self.apple_was_eaten.was_eaten {
            self.snake.order().push(self.snake.arena().len() as usize)
        } else {
            self.snake.order()
        })
        &&& after.apple_was_eaten.was_eaten == (eats || (!due && self.apple_was_eaten.was_eaten))
        &&& after.game_state == (if lost {
            GameState::GameOver
        } else {
            GameState::Playing
        })
        &&& if eats && exists|position: Position| is_free(cells, position) {
            is_free(cells, after.apple.position)
        } else {
            after.apple == self.apple
        }
    }

    /// One tick of a running game: the phases in their fixed order. The
    /// player's direction is recorded, the snake moves if its interval has
    /// passed, a collision ends the game, food under the head is eaten
    /// and moved, and the result says whether the game-over screen is due.
    /// What the game is after that, [`SnakeGame::ticks_to`] says.
    ///
    /// A game that is over is left as it is.
    ///
    /// Where the snake moves, the head's new coordinates must fit in `i32`.
    pub fn tick(&mut self, actions: &ActionsDown, delta_ms: u64) -> (r: Transition)
        requires
            old(self).wf(),
            old(self).game_state == GameState::Playing && move_is_due(
                old(self).next_direction,
                delta_ms,
            ) ==> old(self).snake@[0].can_shift(
                steered(old(self).next_direction.direction, *actions),
            ),
        ensures
            final(self).wf(),
            r == (if final(self).game_state == GameState::GameOver {
                Transition::ReplaceWithGameOver
            } else {
                Transition::Continue
            }),
            old(self).game_state == GameState::GameOver ==> *final(self) == *old(self),
            old(self).game_state == GameState::Playing ==> old(self).ticks_to(
                *final(self),
                *actions,
                delta_ms,
            ),
            old(self).in_play() ==> final(self).in_play(),
    {
        if self.game_state == GameState::GameOver {
            return self.update();
        }
        InputSystem.run(&mut self.next_direction, actions);
        proof {
            let cells = advanced(
                self.snake@,
                self.next_direction.direction,
                self.apple_was_eaten.was_eaten,
            );
            if self.in_play() && move_is_due(self.next_direction, delta_ms) && !collides(cells) {
                lemma_move_keeps_fit_for_play(
                    self.snake@,
                    self.next_direction.direction,
                    self.apple_was_eaten.was_eaten,
                    self.apple.position,
                );
            }
        }
        MoveSnakeSystem.run(self, delta_ms);
        SnakeCollisionSystem.run(self);
        AppleHandlerSystem.run(self);
        self.update()
    }

    /// What a window event asks for: leaving, when the window is being
    /// closed or Escape is pressed, and nothing otherwise.
    pub fn handle_event(&self, close_requested: bool, escape_pressed: bool) -> (r: Transition)
        ensures
            r == (if close_requested || escape_pressed {
                Transition::Quit
            } else {
                Transition::Continue
            }),
    {
        if close_requested || escape_pressed {
            Transition::Quit
        } else {
            Transition::Continue
        }
    }

    /// Hands over to the game-over screen once the game is lost.
    pub fn update(&self) -> (r: Transition)
        ensures
            r == (if self.game_state == GameState::GameOver {
                Transition::ReplaceWithGameOver
            } else {
                Transition::Continue
            }),
    {
        if self.game_state == GameState::GameOver {
            Transition::ReplaceWithGameOver
        } else {
            Transition::Continue
        }
    }
}

} // verus!
