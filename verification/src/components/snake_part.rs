//! The link between neighbouring segments of the snake.

use vstd::prelude::*;

verus! {

/// The role of a segment within the chain.
#[derive(Clone, Copy, Debug, PartialEq, Eq, Structural)]
pub enum SnakePartType {
    Head,
    Body,
    Tail,
}

/// Marks an entity as a segment of the snake and names the segment behind
/// it, one step closer to the tail. The tail names none.
#[derive(Clone, Copy, Debug, PartialEq, Eq)]
pub struct SnakePartComponent {
    pub next_snake_part: Option<usize>,
}

} // verus!
