//! Points, velocities and the screen, each with its mathematical view.

use vstd::prelude::*;
use crate::units::{in_range, within_range, BALL_SPEED, RACKET_HEIGHT};

verus! {

/// A pair of unbounded integers: what a point or a velocity stands for.
pub struct Vec2 {
    pub x: int,
    pub y: int,
}

/// The play field as contracts see it. Its left and top edges are at 0.
pub struct Court {
    pub width: int,
    pub height: int,
}

/// A position on the screen. `y` grows downwards.
#[derive(Clone, Copy, Debug, PartialEq, Eq, Structural)]
pub struct Point {
    pub x: i64,
    pub y: i64,
}

/// A velocity in pixels per second.
#[derive(Clone, Copy, Debug, PartialEq, Eq, Structural)]
pub struct Velocity {
    pub x: i64,
    pub y: i64,
}

/// The drawable area reported by the host for one frame.
#[derive(Clone, Copy, Debug, PartialEq, Eq, Structural)]
pub struct Screen {
    pub width: i64,
    pub height: i64,
}

impl View for Point {
    type V = Vec2;

    open spec fn view(&self) -> Vec2 {
        Vec2 { x: self.x as int, y: self.y as int }
    }
}

impl View for Velocity {
    type V = Vec2;

    open spec fn view(&self) -> Vec2 {
        Vec2 { x: self.x as int, y: self.y as int }
    }
}

impl View for Screen {
    type V = Court;

    open spec fn view(&self) -> Court {
        Court { width: self.width as int, height: self.height as int }
    }
}

impl Vec2 {
    /// Whether both components have the magnitude of the ball's speed.
    pub open spec fn at_ball_speed(self) -> bool {
        &&& self.x == BALL_SPEED || self.x == -BALL_SPEED
        &&& self.y == BALL_SPEED || self.y == -BALL_SPEED
    }
}

impl Court {
    /// Whether a racket fits between the top and the bottom edge.
    pub open spec fn fits_racket(self) -> bool {
        self.height >= RACKET_HEIGHT
    }
}

impl Point {
    /// Both coordinates lie within the coordinate range.
    pub open spec fn wf(&self) -> bool {
        in_range(self.x as int) && in_range(self.y as int)
    }

    /// Tests `wf`.
    pub fn is_valid(&self) -> (ok: bool)
        ensures
            ok == self.wf(),
    {
        within_range(self.x) && within_range(self.y)
    }
}

impl Velocity {
    /// Both components have the magnitude of the ball's speed.
    pub open spec fn wf(&self) -> bool {
        self@.at_ball_speed()
    }

    /// Tests `wf`.
    pub fn is_valid(&self) -> (ok: bool)
        ensures
            ok == self.wf(),
    {
        (self.x == BALL_SPEED || self.x == -BALL_SPEED) && (self.y == BALL_SPEED || self.y
            == -BALL_SPEED)
    }
}

impl Screen {
    /// Both extents are non-negative and within the coordinate range.
    pub open spec fn wf(&self) -> bool {
        &&& 0 <= self.width && in_range(self.width as int)
        &&& 0 <= self.height && in_range(self.height as int)
    }

    /// Tests `wf`.
    pub fn is_valid(&self) -> (ok: bool)
        ensures
            ok == self.wf(),
    {
        0 <= self.width && within_range(self.width) && 0 <= self.height && within_range(
            self.height,
        )
    }

    /// Whether a racket fits between the top and the bottom edge.
    pub fn fits_racket(&self) -> (ok: bool)
        ensures
            ok == self@.fits_racket(),
    {
        self.height >= RACKET_HEIGHT
    }
}

} // verus!
