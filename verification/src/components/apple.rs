//! The food.

use vstd::prelude::*;

use crate::components::game_position::Position;

verus! {

/// The single piece of food on the board. It is moved, never recreated.
#[derive(Clone, Copy, Debug, PartialEq, Eq, Structural)]
pub struct AppleComponent {
    pub position: Position,
}

} // verus!
