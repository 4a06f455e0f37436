//! A Pong-style arcade game: one ball, a player paddle and a computer paddle.
//!
//! Every quantity is held in fixed point: positions in micro-units of the
//! arena grid, velocities in micro-units per second, durations in
//! microseconds. Drawing is described as a list of rectangles in
//! micro-pixels, which a host window paints.

pub mod units;
pub mod draw;
pub mod ball;
pub mod paddle;
pub mod game;

pub use units::{UNIT, LIMIT, BAND_LIMIT};
