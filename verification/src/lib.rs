//! A grid-based snake game: the rules of the game, the keyboard contract, and
//! the projection of a game onto a grid of cells to draw.

mod chance;
pub mod display;
pub mod game;
pub mod geometry;
pub mod input;
