//! The board: a rectangle of cells with a wall one cell thick around the
//! playable area.

use vstd::prelude::*;

use crate::components::game_position::{GamePositionComponent, Position};
use crate::snake::{
    SnakeSpritesKeys, ARENA_HEIGHT, ARENA_PLAYABLE_HEIGHT, ARENA_PLAYABLE_WIDTH, ARENA_WIDTH,
};

verus! {

/// Whether the cell is part of the wall, or beyond it.
pub open spec fn hits_wall(position: Position) -> bool {
    position.x <= 0 || position.x >= ARENA_WIDTH - 1 || position.y <= 0 || position.y
        >= ARENA_HEIGHT - 1
}

/// Whether the cell lies inside the walls.
pub open spec fn in_playable_area(position: Position) -> bool {
    1 <= position.x <= ARENA_PLAYABLE_WIDTH && 1 <= position.y <= ARENA_PLAYABLE_HEIGHT
}

/// Whether the cell belongs to the board at all, walls included.
pub open spec fn on_board(position: Position) -> bool {
    0 <= position.x < ARENA_WIDTH && 0 <= position.y < ARENA_HEIGHT
}

/// The sprite of the ground at a cell of the board: wall on the border,
/// grass inside.
pub open spec fn ground_sprite(position: Position) -> SnakeSpritesKeys {
    if position.x == 0 || position.y == 0 || position.x == ARENA_WIDTH - 1 || position.y
        == ARENA_HEIGHT - 1 {
        SnakeSpritesKeys::Wall
    } else {
        SnakeSpritesKeys::Grass
    }
}

/// A cell lies inside the walls exactly if it is clear of them. The cells
/// inside the walls are cells of the board, and on the board the cells
/// that hit the wall are those whose ground is wall.
pub proof fn lemma_playable_iff_clear_of_wall(position: Position)
    ensures
        in_playable_area(position) <==> !hits_wall(position),
        in_playable_area(position) ==> on_board(position),
        on_board(position) ==> (ground_sprite(position) == SnakeSpritesKeys::Wall <==> hits_wall(
            position,
        )),
{
}

/// Whether the cell is part of the wall, or beyond it.
pub fn is_wall(position: &Position) -> (r: bool)
    ensures
        r == hits_wall(*position),
{
    position.x <= 0 || position.x >= ARENA_WIDTH - 1 || position.y <= 0 || position.y
        >= ARENA_HEIGHT - 1
}

/// One cell of the ground.
#[derive(Clone, Copy, Debug, PartialEq, Eq, Structural)]
pub struct BoardTile {
    pub position: GamePositionComponent,
    pub sprite: SnakeSpritesKeys,
}

/// The ground of the whole board, column by column from the left and each
/// column from the bottom: the tile of the cell `(x, y)` is the element
/// `x * ARENA_HEIGHT + y`.
pub fn init_board() -> (tiles: Vec<BoardTile>)
    ensures
        tiles@.len() == ARENA_WIDTH * ARENA_HEIGHT,
        forall|x: int, y: int|
            0 <= x < ARENA_WIDTH && 0 <= y < ARENA_HEIGHT ==> {
                let tile = #[trigger] tiles@[x * ARENA_HEIGHT + y];
                &&& tile.position.position.x == x
                &&& tile.position.position.y == y
                &&& tile.sprite == ground_sprite(tile.position.position)
            },
{
    let mut tiles: Vec<BoardTile> = Vec::new();
    let mut x: i32 = 0;
    while x < ARENA_WIDTH
        invariant
            0 <= x <= ARENA_WIDTH,
            tiles@.len() == x * ARENA_HEIGHT,
            forall|a: int, b: int|
                0 <= a < x && 0 <= b < ARENA_HEIGHT ==> {
                    let tile = #[trigger] tiles@[a * ARENA_HEIGHT + b];
                    &&& tile.position.position.x == a
                    &&& tile.position.position.y == b
                    &&& tile.sprite == ground_sprite(tile.position.position)
                },
        decreases ARENA_WIDTH - x,
    {
        let mut y: i32 = 0;
        while y < ARENA_HEIGHT
            invariant
                0 <= x < ARENA_WIDTH,
                0 <= y <= ARENA_HEIGHT,
                tiles@.len() == x * ARENA_HEIGHT + y,
                forall|a: int, b: int|
                    0 <= a < x && 0 <= b < ARENA_HEIGHT ==> {
                        let tile = #[trigger] tiles@[a * ARENA_HEIGHT + b];
                        &&& tile.position.position.x == a
                        &&& tile.position.position.y == b
                        &&& tile.sprite == ground_sprite(tile.position.position)
                    },
                forall|b: int|
                    0 <= b < y ==> {
                        let tile = #[trigger] tiles@[x * ARENA_HEIGHT + b];
                        &&& tile.position.position.x == x
                        &&& tile.position.position.y == b
                        &&& tile.sprite == ground_sprite(tile.position.position)
                    },
            decreases ARENA_HEIGHT - y,
        {
            let sprite_key: SnakeSpritesKeys = if x == 0 || y == 0 || x == ARENA_WIDTH - 1 || y
                == ARENA_HEIGHT - 1 {
                SnakeSpritesKeys::Wall
            } else {
                SnakeSpritesKeys::Grass
            };
            let position = GamePositionComponent::new(x, y);
            tiles.push(BoardTile { position, sprite: sprite_key });
            y = y + 1;
        }
        x = x + 1;
    }
    tiles
}

} // verus!
