//! The rules of a two-paddle ball game on a fixed playfield.
//!
//! Every quantity is a whole number on a fixed-point grid (see [`units`]),
//! so a frame of the game is an exact function of the state before it, the
//! keys held down, the time that passed and the numbers that were drawn.
//!
//! A frame runs the paddle controller first and the ball simulator second:
//! the paddles follow their keys and are kept inside the field, then the ball
//! moves along its velocity, turns back at the top and bottom walls, and
//! rebounds from a paddle it overlaps at a freshly drawn vertical speed.

pub mod units;
pub mod geometry;
pub mod config;
pub mod paddle;
pub mod chance;
pub mod ball;
pub mod game;
pub mod scene;
