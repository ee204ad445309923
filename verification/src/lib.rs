//! Tile-grid water-flow and construction simulation for a canal-building puzzle.

pub mod actions;
pub mod app_state;
pub mod board;
pub mod events;
pub mod flow;
pub mod game_state;
pub mod laws;
pub mod level;
pub mod session;
pub mod simulation;
pub mod staging;
pub mod tile;
pub mod wetness;
