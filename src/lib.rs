//! Simulation core of a lunar-lander rescue game: the mothership patrol, the
//! asteroid field, the descent pod's life cycle and the level progression.
//!
//! All lengths are integers, in units of 1/1920 of a pixel (see
//! [`geometry::UNITS_PER_PIXEL`]): a length that the game's design gives for a
//! 1920-pixel-wide window is then `k * window_width` units on any window.

pub mod entities;
pub mod geometry;
pub mod level;
pub mod random;
pub mod game;
pub mod laws;

pub use entities::{Asteroid, CollisionType, GameStatus, ManStatus, PodMove, PodStatus, Sounds, Star};
pub use game::Game;
