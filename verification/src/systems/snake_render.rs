//! How each segment is drawn: which sprite, and turned by how much.

use vstd::prelude::*;

use crate::chain::{advanced, overlaps_itself, SnakeChain};
use crate::components::game_position::Position;
use crate::components::snake_part::SnakePartType;
use crate::snake::{Direction, GameState, SnakeGame, SnakeSpritesKeys};

verus! {

/// A rotation of a sprite by a whole number of quarter turns,
/// counter-clockwise.
#[derive(Clone, Copy, Debug, PartialEq, Eq, Structural)]
pub enum Rotation {
    /// No rotation.
    Zero,
    /// A quarter turn.
    Quarter,
    /// A half turn.
    Half,
    /// A quarter turn the other way.
    NegativeQuarter,
}

impl Rotation {
    /// The rotation in quarter turns: the angle is this many times a right angle.
    pub open spec fn spec_quarter_turns(self) -> i32 {
        match self {
            Rotation::Zero => 0i32,
            Rotation::Quarter => 1i32,
            Rotation::Half => 2i32,
            Rotation::NegativeQuarter => (-1) as i32,
        }
    }

    /// The rotation of a head or tail, see [`end_rotation`].
    pub fn for_end(direction: Direction) -> (r: Rotation)
        ensures
            r == end_rotation(direction),
    {
        match direction {
            Direction::Up => Rotation::Half,
            Direction::Down => Rotation::Zero,
            Direction::Right => Rotation::Quarter,
            Direction::Left => Rotation::NegativeQuarter,
        }
    }

    /// The rotation of a corner piece, see [`corner_rotation`]; none where
    /// the two directions are equal or opposite.
    pub fn for_corner(incoming: Direction, outgoing: Direction) -> (r: Option<Rotation>)
        ensures
            r == corner_rotation(incoming, outgoing),
    {
        match (incoming, outgoing) {
            (Direction::Right, Direction::Down) | (Direction::Up, Direction::Left) => Some(
                Rotation::Zero,
            ),
            (Direction::Right, Direction::Up) | (Direction::Down, Direction::Left) => Some(
                Rotation::NegativeQuarter,
            ),
            (Direction::Down, Direction::Right) | (Direction::Left, Direction::Up) => Some(
                Rotation::Half,
            ),
            (Direction::Left, Direction::Down) | (Direction::Up, Direction::Right) => Some(
                Rotation::Quarter,
            ),
            _ => None,
        }
    }

    /// The rotation in quarter turns: the angle is this many times a right angle.
    #[verifier::when_used_as_spec(spec_quarter_turns)]
    pub fn quarter_turns(self) -> (r: i32)
        ensures
            r == self.spec_quarter_turns(),
    {
        match self {
            Rotation::Zero => 0,
            Rotation::Quarter => 1,
            Rotation::Half => 2,
            Rotation::NegativeQuarter => -1,
        }
    }
}

/// How one segment is drawn.
#[derive(Clone, Copy, Debug, PartialEq, Eq, Structural)]
pub struct PartAppearance {
    /// The segment's identifier.
    pub entity: usize,
    pub part_type: SnakePartType,
    pub sprite: SnakeSpritesKeys,
    pub rotation: Rotation,
}

/// Why a chain cannot be drawn. `index` counts segments from the head.
#[derive(Clone, Copy, Debug, PartialEq, Eq, Structural)]
pub enum RenderError {
    /// The chain is a head alone, with no neighbour to be turned by.
    NoNeighbour,
    /// The segments `index` and `index + 1` are not on neighbouring cells.
    NotAdjacent { index: usize },
    /// The chain turns back on itself at segment `index`: its predecessor
    /// and its successor lie on the same cell.
    UTurn { index: usize },
}

/// The direction of the step from `from` to `to`, if they are neighbours.
pub open spec fn direction_between(from: Position, to: Position) -> Option<Direction> {
    let dx = to.x - from.x;
    let dy = to.y - from.y;
    if dx == 1 && dy == 0 {
        Some(Direction::Right)
    } else if dx == -1 && dy == 0 {
        Some(Direction::Left)
    } else if dx == 0 && dy == 1 {
        Some(Direction::Up)
    } else if dx == 0 && dy == -1 {
        Some(Direction::Down)
    } else {
        None
    }
}

/// The rotation of a head whose successor lies in `direction` from it, and
/// of a tail that lies in `direction` from its predecessor.
pub open spec fn end_rotation(direction: Direction) -> Rotation {
    match direction {
        Direction::Up => Rotation::Half,
        Direction::Down => Rotation::Zero,
        Direction::Right => Rotation::Quarter,
        Direction::Left => Rotation::NegativeQuarter,
    }
}

/// The rotation of a straight piece that runs in `direction`: none for a
/// vertical run, a quarter turn for a horizontal one.
pub open spec fn straight_rotation(direction: Direction) -> Rotation {
    match direction {
        Direction::Up | Direction::Down => Rotation::Zero,
        Direction::Right | Direction::Left => Rotation::Quarter,
    }
}

/// The rotation of a corner piece entered in `incoming` and left in
/// `outgoing`, for the eight pairs that form a turn.
pub open spec fn corner_rotation(incoming: Direction, outgoing: Direction) -> Option<Rotation> {
    match (incoming, outgoing) {
        (Direction::Right, Direction::Down) | (Direction::Up, Direction::Left) => Some(
            Rotation::Zero,
        ),
        (Direction::Right, Direction::Up) | (Direction::Down, Direction::Left) => Some(
            Rotation::NegativeQuarter,
        ),
        (Direction::Down, Direction::Right) | (Direction::Left, Direction::Up) => Some(
            Rotation::Half,
        ),
        (Direction::Left, Direction::Down) | (Direction::Up, Direction::Right) => Some(
            Rotation::Quarter,
        ),
        _ => None,
    }
}

/// What keeps the chain from being drawn at the link between the segments
/// `i` and `i + 1`, if anything: the two are not neighbours, or the chain
/// doubles back at segment `i`.
pub open spec fn fault_at(positions: Seq<Position>, i: int) -> Option<RenderError> {
    if direction_between(positions[i], positions[i + 1]) is None {
        Some(RenderError::NotAdjacent { index: i as usize })
    } else if i >= 1 && direction_between(positions[i - 1], positions[i]).unwrap()
        == direction_between(positions[i], positions[i + 1]).unwrap().spec_opposite() {
        Some(RenderError::UTurn { index: i as usize })
    } else {
        None
    }
}

/// The chain can be drawn: it has a segment behind the head, neighbours in
/// the chain are neighbours on the grid, and it never doubles back.
pub open spec fn drawable(positions: Seq<Position>) -> bool {
    &&& positions.len() >= 2
    &&& forall|i: int| 0 <= i < positions.len() - 1 ==> fault_at(positions, i) is None
}

/// The sprite and rotation of segment `i` of a drawable chain, drawn for the
/// segment with the identifier `entity`.
pub open spec fn appearance(positions: Seq<Position>, i: int, entity: usize) -> PartAppearance {
    if i == 0 {
        PartAppearance {
            entity,
            part_type: SnakePartType::Head,
            sprite: SnakeSpritesKeys::SnakeHead,
            rotation: end_rotation(direction_between(positions[0], positions[1]).unwrap()),
        }
    } else if i == positions.len() - 1 {
        PartAppearance {
            entity,
            part_type: SnakePartType::Tail,
            sprite: SnakeSpritesKeys::SnakeTail,
            rotation: end_rotation(direction_between(positions[i - 1], positions[i]).unwrap()),
        }
    } else {
        let incoming = direction_between(positions[i - 1], positions[i]).unwrap();
        let outgoing = direction_between(positions[i], positions[i + 1]).unwrap();
        if incoming == outgoing {
            PartAppearance {
                entity,
                part_type: SnakePartType::Body,
                sprite: SnakeSpritesKeys::SnakeBody,
                rotation: straight_rotation(incoming),
            }
        } else {
            PartAppearance {
                entity,
                part_type: SnakePartType::Body,
                sprite: SnakeSpritesKeys::SnakeTurn,
                rotation: corner_rotation(incoming, outgoing).unwrap(),
            }
        }
    }
}

/// `error` is the first thing that keeps the chain from being drawn, going
/// from the head to the tail.
pub open spec fn is_first_fault(positions: Seq<Position>, error: RenderError) -> bool {
    match error {
        RenderError::NoNeighbour => positions.len() < 2,
        RenderError::NotAdjacent { index } | RenderError::UTurn { index } => {
            &&& positions.len() >= 2
            &&& index < positions.len() - 1
            &&& fault_at(positions, index as int) == Some(error)
            &&& forall|j: int| 0 <= j < index ==> fault_at(positions, j) is None
        },
    }
}

/// `parts` says how each segment of the chain is drawn, head first.
pub open spec fn draws(parts: Seq<PartAppearance>, chain: SnakeChain) -> bool {
    &&& parts.len() == chain@.len()
    &&& forall|i: int|
        0 <= i < parts.len() ==> #[trigger] parts[i] == appearance(chain@, i, chain.order()[i])
}

/// Derives from the cells of the snake how each of its segments is drawn.
pub struct SnakeRenderSystem;

impl SnakeRenderSystem {
    /// How the snake of the game is drawn, see [`orient_segments`]. The
    /// result depends on the cells of the snake alone: it is the same
    /// whether the game is on or lost, and whenever it is asked for.
    ///
    /// While a game is on and [in play](SnakeGame::in_play), its snake can
    /// be drawn. The snake of a lost game may have run into itself, and
    /// where it doubles back, that fault is reported as for any chain.
    pub fn run(&self, game: &SnakeGame) -> (r: Result<Vec<PartAppearance>, RenderError>)
        requires
            game.wf(),
        ensures
            match r {
                Ok(parts) => drawable(game.snake@) && draws(parts@, game.snake),
                Err(error) => is_first_fault(game.snake@, error),
            },
            game.game_state == GameState::Playing && game.in_play() ==> r is Ok,
    {
        orient_segments(&game.snake)
    }
}

/// Walks the chain from the head to the tail and gives, for every segment
/// in that order, its sprite and rotation.
///
/// The head is turned by the direction in which its successor lies, the
/// tail by the direction in which it lies from its predecessor. A segment
/// between them is a straight piece where the chain runs on, turned by the
/// axis of the run, and a corner piece where the chain turns, turned by the
/// pair of directions. A chain that cannot be drawn is reported with its
/// first fault and never drawn in part.
pub fn orient_segments(chain: &SnakeChain) -> (r: Result<Vec<PartAppearance>, RenderError>)
    requires
        chain.wf(),
    ensures
        match r {
            Ok(parts) => drawable(chain@) && draws(parts@, *chain),
            Err(error) => is_first_fault(chain@, error),
        },
{
    let positions: Vec<Position> = chain.positions();
    let entities: Vec<usize> = chain.entities();
    let n: usize = positions.len();
    if n < 2 {
        return Err(RenderError::NoNeighbour);
    }
    if !are_neighbours(&positions[0], &positions[1]) {
        return Err(RenderError::NotAdjacent { index: 0 });
    }
    let head_direction: Direction = get_next_direction(&positions[0], &positions[1]);
    let mut parts: Vec<PartAppearance> = Vec::new();
    parts.push(
        PartAppearance {
            entity: entities[0],
            part_type: SnakePartType::Head,
            sprite: SnakeSpritesKeys::SnakeHead,
            rotation: Rotation::for_end(head_direction),
        },
    );

    let mut i: usize = 1;
    while i < n - 1
        invariant
            n >= 2,
            positions@ == chain@,
            entities@ == chain.order(),
            positions@.len() == n,
            entities@.len() == n,
            1 <= i <= n - 1,
            parts@.len() == i,
            forall|j: int| 0 <= j < i ==> fault_at(positions@, j) is None,
            forall|j: int|
                0 <= j < i ==> #[trigger] parts@[j] == appearance(positions@, j, entities@[j]),
        decreases n - i,
    {
        let previous_position: &Position = &positions[i - 1];
        let current_position: &Position = &positions[i];
        let next_position: &Position = &positions[i + 1];
        assert(fault_at(positions@, i - 1) is None);
        if !are_neighbours(current_position, next_position) {
            return Err(RenderError::NotAdjacent { index: i });
        }
        let rotation: Rotation;
        let sprite: SnakeSpritesKeys;
        if are_axis_aligned(previous_position, next_position) {
            let x_aligned: bool = are_x_aligned(previous_position, next_position);
            rotation = match x_aligned {
                true => Rotation::Zero,
                false => Rotation::Quarter,
            };
            sprite = SnakeSpritesKeys::SnakeBody;
        } else {
            let direction_1: Direction = get_next_direction(
                previous_position,
                current_position,
            );
            let direction_2: Direction = get_next_direction(current_position, next_position);
            match Rotation::for_corner(direction_1, direction_2) {
                Some(corner) => {
                    rotation = corner;
                    sprite = SnakeSpritesKeys::SnakeTurn;
                },
                None => {
                    return Err(RenderError::UTurn { index: i });
                },
            }
        }
        parts.push(
            PartAppearance {
                entity: entities[i],
                part_type: SnakePartType::Body,
                sprite,
                rotation,
            },
        );
        i = i + 1;
    }

    assert(fault_at(positions@, n - 2) is None);
    let tail_direction: Direction = get_next_direction(&positions[n - 2], &positions[n - 1]);
    parts.push(
        PartAppearance {
            entity: entities[n - 1],
            part_type: SnakePartType::Tail,
            sprite: SnakeSpritesKeys::SnakeTail,
            rotation: Rotation::for_end(tail_direction),
        },
    );
    Ok(parts)
}

/// The direction of the step from `current_position` to `next_position`,
/// which must be neighbours.
pub fn get_next_direction(current_position: &Position, next_position: &Position) -> (r: Direction)
    requires
        direction_between(*current_position, *next_position) is Some,
    ensures
        direction_between(*current_position, *next_position) == Some(r),
{
    let delta_x: i64 = next_position.x as i64 - current_position.x as i64;
    let delta_y: i64 = next_position.y as i64 - current_position.y as i64;
    if delta_x == 1 {
        Direction::Right
    } else if delta_x == -1 {
        Direction::Left
    } else if delta_y == 1 {
        Direction::Up
    } else {
        Direction::Down
    }
}

/// Whether `to` is one step up, down, left or right of `from`.
pub fn are_neighbours(from: &Position, to: &Position) -> (r: bool)
    ensures
        r == direction_between(*from, *to) is Some,
{
    let delta_x: i64 = to.x as i64 - from.x as i64;
    let delta_y: i64 = to.y as i64 - from.y as i64;
    (delta_y == 0 && (delta_x == 1 || delta_x == -1)) || (delta_x == 0 && (delta_y == 1 || delta_y
        == -1))
}

/// Whether the two cells share exactly one coordinate, as the cells before
/// and after a straight piece do.
pub fn are_axis_aligned(previous_position: &Position, next_position: &Position) -> (r: bool)
    ensures
        r == ((previous_position.x == next_position.x) != (previous_position.y
            == next_position.y)),
{
    let x_aligned: bool = are_x_aligned(previous_position, next_position);
    let y_aligned: bool = are_y_aligned(previous_position, next_position);
    x_aligned ^ y_aligned
}

/// Whether the two cells lie in one column.
pub fn are_x_aligned(previous_position: &Position, next_position: &Position) -> (r: bool)
    ensures
        r == (previous_position.x == next_position.x),
{
    previous_position.x == next_position.x
}

/// Whether the two cells lie in one row.
pub fn are_y_aligned(previous_position: &Position, next_position: &Position) -> (r: bool)
    ensures
        r == (previous_position.y == next_position.y),
{
    previous_position.y == next_position.y
}

/// A chain that can be drawn can still be drawn after a move, unless the
/// move ends in a collision of the snake with itself: the segments stay
/// neighbours, and the chain doubles back only where the head has moved
/// onto the segment behind it.
pub proof fn lemma_move_keeps_drawable(positions: Seq<Position>, direction: Direction, grow: bool)
    requires
        drawable(positions),
        positions[0].can_shift(direction),
        !overlaps_itself(advanced(positions, direction, grow)),
    ensures
        drawable(advanced(positions, direction, grow)),
{
    let after = advanced(positions, direction, grow);
    assert forall|i: int| 0 <= i < after.len() - 1 implies fault_at(after, i) is None by {
        if i >= 1 {
            assert(fault_at(positions, i - 1) is None);
        }
        if i == 1 && after[2] == after[0] {
            assert(overlaps_itself(after));
        }
    }
}

} // verus!
