//! What the host hands in each frame: the keys held, and the coins for a serve.

use vstd::prelude::*;

verus! {

/// The keys the game listens to.
#[derive(Clone, Copy, Debug, PartialEq, Eq, Structural)]
pub enum Key {
    W,
    S,
    Up,
    Down,
}

/// The two players. `One` has the left racket.
#[derive(Clone, Copy, Debug, PartialEq, Eq, Structural)]
pub enum Player {
    One,
    Two,
}

/// Which of the four keys are held during a frame.
#[derive(Clone, Copy, Debug, PartialEq, Eq, Structural)]
pub struct Keys {
    pub w: bool,
    pub s: bool,
    pub up: bool,
    pub down: bool,
}

/// The two coins that decide a serve.
#[derive(Clone, Copy, Debug, PartialEq, Eq, Structural)]
pub struct Serve {
    /// The ball leaves to the right.
    pub right: bool,
    /// The ball leaves downwards.
    pub down: bool,
}

impl Player {
    /// The key that moves this player's racket up.
    pub open spec fn spec_up_key(self) -> Key {
        match self {
            Player::One => Key::W,
            Player::Two => Key::Up,
        }
    }

    /// The key that moves this player's racket down.
    pub open spec fn spec_down_key(self) -> Key {
        match self {
            Player::One => Key::S,
            Player::Two => Key::Down,
        }
    }

    /// The key that moves this player's racket up.
    #[verifier::when_used_as_spec(spec_up_key)]
    pub fn up_key(self) -> (key: Key)
        ensures
            key == self.spec_up_key(),
    {
        match self {
            Player::One => Key::W,
            Player::Two => Key::Up,
        }
    }

    /// The key that moves this player's racket down.
    #[verifier::when_used_as_spec(spec_down_key)]
    pub fn down_key(self) -> (key: Key)
        ensures
            key == self.spec_down_key(),
    {
        match self {
            Player::One => Key::S,
            Player::Two => Key::Down,
        }
    }
}

impl Keys {
    /// Whether `key` is held.
    pub open spec fn spec_is_pressed(&self, key: Key) -> bool {
        match key {
            Key::W => self.w,
            Key::S => self.s,
            Key::Up => self.up,
            Key::Down => self.down,
        }
    }

    /// Whether `key` is held.
    #[verifier::when_used_as_spec(spec_is_pressed)]
    pub fn is_pressed(&self, key: Key) -> (held: bool)
        ensures
            held == self.spec_is_pressed(key),
    {
        match key {
            Key::W => self.w,
            Key::S => self.s,
            Key::Up => self.up,
            Key::Down => self.down,
        }
    }
}

} // verus!
