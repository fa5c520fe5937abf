//! The simulation core of a two-player Pong game, in exact integer arithmetic.
//!
//! The host calls [`MainState::update`] once per frame with the time since
//! the last frame, the size of the screen and the keys held, and draws what
//! the state then holds.

pub mod ball;
pub mod chance;
pub mod game;
pub mod geometry;
pub mod input;
pub mod laws;
pub mod racket;
pub mod units;

pub use crate::ball::{Ball, CollisionType};
pub use crate::game::MainState;
pub use crate::geometry::{Point, Screen, Velocity};
pub use crate::input::{Key, Keys, Player, Serve};
