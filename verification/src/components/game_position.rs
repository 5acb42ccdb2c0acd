//! Grid coordinates.

use vstd::prelude::*;

use crate::snake::Direction;

verus! {

/// Side of one grid cell on screen, in pixels.
pub const TILE_SIZE: i32 = 32;

/// A cell of the grid.
#[derive(Clone, Copy, Debug, PartialEq, Eq, Structural)]
pub struct Position {
    pub x: i32,
    pub y: i32,
}

impl Position {
    /// Whether the neighbouring cell in `direction` still has `i32` coordinates.
    pub open spec fn can_shift(self, direction: Direction) -> bool {
        match direction {
            Direction::Up => self.y < i32::MAX,
            Direction::Down => self.y > i32::MIN,
            Direction::Right => self.x < i32::MAX,
            Direction::Left => self.x > i32::MIN,
        }
    }

    /// The neighbouring cell in `direction`: up and right count upwards.
    pub open spec fn shifted(self, direction: Direction) -> Position {
        match direction {
            Direction::Up => Position { x: self.x, y: (self.y + 1) as i32 },
            Direction::Down => Position { x: self.x, y: (self.y - 1) as i32 },
            Direction::Right => Position { x: (self.x + 1) as i32, y: self.y },
            Direction::Left => Position { x: (self.x - 1) as i32, y: self.y },
        }
    }

    /// The neighbouring cell in `direction`.
    pub fn neighbour(self, direction: Direction) -> (r: Position)
        requires
            self.can_shift(direction),
        ensures
            r == self.shifted(direction),
    {
        match direction {
            Direction::Up => Position { x: self.x, y: self.y + 1 },
            Direction::Down => Position { x: self.x, y: self.y - 1 },
            Direction::Right => Position { x: self.x + 1, y: self.y },
            Direction::Left => Position { x: self.x - 1, y: self.y },
        }
    }

    /// The neighbouring cell in `direction`, or nothing where its coordinate
    /// would leave the range of `i32`.
    pub fn shift(self, direction: Direction) -> (r: Option<Position>)
        ensures
            r == if self.can_shift(direction) {
                Some(self.shifted(direction))
            } else {
                None
            },
    {
        let fits: bool = match direction {
            Direction::Up => self.y < i32::MAX,
            Direction::Down => self.y > i32::MIN,
            Direction::Right => self.x < i32::MAX,
            Direction::Left => self.x > i32::MIN,
        };
        if fits {
            Some(self.neighbour(direction))
        } else {
            None
        }
    }
}

/// The position attribute of an entity on the grid.
#[derive(Clone, Copy, Debug, PartialEq, Eq, Structural)]
pub struct GamePositionComponent {
    pub position: Position,
}

impl GamePositionComponent {
    pub fn new(x: i32, y: i32) -> (r: Self)
        ensures
            r.position.x == x,
            r.position.y == y,
    {
        GamePositionComponent { position: Position { x, y } }
    }

    /// Screen offset of the cell's origin in pixels.
    pub open spec fn spec_pixel_offset(self) -> (int, int) {
        (self.position.x * TILE_SIZE, self.position.y * TILE_SIZE)
    }

    /// Screen offset of the cell's origin in pixels, wide enough for every cell.
    pub fn pixel_offset(&self) -> (r: (i64, i64))
        ensures
            r.0 == self.spec_pixel_offset().0,
            r.1 == self.spec_pixel_offset().1,
    {
        let x: i64 = self.position.x as i64;
        let y: i64 = self.position.y as i64;
        (x * (TILE_SIZE as i64), y * (TILE_SIZE as i64))
    }
}

} // verus!
