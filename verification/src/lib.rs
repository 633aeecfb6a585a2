//! Core simulation engine of a grid-based tower-defense game.
//!
//! Monsters walk along a fixed sequence of path cells toward the base,
//! towers placed by the player attack monsters in range on cooldown
//! timers, killed monsters drop gold piles, and collected gold funds
//! further tower placement.  All coordinates are integer world units
//! (one grid cell is `BLOCK_SIZE` units on a side) and all durations are
//! integer milliseconds.

pub mod geometry;
pub mod player;
pub mod gold_pile;
pub mod monster;
pub mod tower;
pub mod board;
pub mod spawner;
pub mod game;
pub mod utils;
