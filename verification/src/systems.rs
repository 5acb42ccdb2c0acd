//! The phases of a tick, in the order in which they run: input, movement,
//! collision, food, and the orientation of the segments for display.

pub mod apple_handler;
pub mod input;
pub mod move_snake;
pub mod snake_collision;
pub mod snake_render;

pub use apple_handler::AppleHandlerSystem;
pub use input::InputSystem;
pub use move_snake::MoveSnakeSystem;
pub use snake_collision::SnakeCollisionSystem;
pub use snake_render::SnakeRenderSystem;
