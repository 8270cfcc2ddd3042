//! The rules of a single-player snake game on a bounded grid.
//!
//! The crate holds the game state and every rule that changes it: movement,
//! growth, collisions, food placement and the pause / over / win cycle.
//! Drawing, input and timing are left to the program that drives the game.

pub mod arena;
pub mod game;
pub mod models;
pub mod scene;
