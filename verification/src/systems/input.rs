//! Steering: which direction the player has asked for.

use vstd::prelude::*;

use crate::snake::{Direction, NextDirection};

verus! {

/// Which of the four steering actions are held down at this moment.
#[derive(Clone, Copy, Debug, PartialEq, Eq, Structural)]
pub struct ActionsDown {
    pub up: bool,
    pub down: bool,
    pub right: bool,
    pub left: bool,
}

/// The direction asked for after the actions have been read. The actions
/// are looked at in the order up, down, right, left, and a later one
/// overrides an earlier one. With none held down the direction stays.
pub open spec fn steered(direction: Direction, actions: ActionsDown) -> Direction {
    if actions.left {
        Direction::Left
    } else if actions.right {
        Direction::Right
    } else if actions.down {
        Direction::Down
    } else if actions.up {
        Direction::Up
    } else {
        direction
    }
}

/// Records the direction that the player asks for.
pub struct InputSystem;

impl InputSystem {
    /// Overwrites the buffered direction with the one asked for, if any.
    /// The buffer holds one direction: what was asked for earlier and not
    /// yet acted on is lost. The clock is left alone.
    pub fn run(&self, next_direction: &mut NextDirection, actions: &ActionsDown)
        ensures
            final(next_direction).direction == steered(old(next_direction).direction, *actions),
            final(next_direction).time_since_last_action == old(
                next_direction,
            ).time_since_last_action,
    {
        if actions.up {
            next_direction.direction = Direction::Up;
        }
        if actions.down {
            next_direction.direction = Direction::Down;
        }
        if actions.right {
            next_direction.direction = Direction::Right;
        }
        if actions.left {
            next_direction.direction = Direction::Left;
        }
    }
}

} // verus!
