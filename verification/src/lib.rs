//! Simulation core of a grid snake game: the chain of body segments, its
//! timed advance, collision and food handling, and the orientation of every
//! segment, each with a machine-checked contract.

pub mod board;
pub mod chain;
pub mod components;
pub mod game_over;
pub mod session;
pub mod snake;
pub mod systems;
