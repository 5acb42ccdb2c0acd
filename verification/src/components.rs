//! The attributes that game entities carry.

pub mod apple;
pub mod game_position;
pub mod snake_part;

pub use apple::AppleComponent;
pub use game_position::{GamePositionComponent, Position};
pub use snake_part::{SnakePartComponent, SnakePartType};
