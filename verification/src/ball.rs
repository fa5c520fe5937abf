//! The ball: free flight, leaving the screen, serving and bouncing off walls.

use vstd::prelude::*;
use vstd::math::abs;
use crate::geometry::{Court, Point, Screen, Vec2, Velocity};
use crate::input::Serve;
use crate::units::{magnitude, BALL_SIZE_HALF, BALL_SPEED};

verus! {

/// What the ball has run into, by its position alone.
#[derive(Clone, Copy, Debug, PartialEq, Eq, Structural)]
pub enum CollisionType {
    /// The centre is within half a ball of the top or bottom edge, or beyond.
    Wall,
    /// The centre has passed the left edge.
    LeftOOB,
    /// The centre has passed the right edge.
    RightOOB,
    /// Nothing of the above.
    Clear,
}

/// The ball as contracts see it.
pub struct BallModel {
    pub pos: Vec2,
    pub vel: Vec2,
    pub home: Vec2,
}

/// The signed speed along one axis that a coin stands for.
pub open spec fn signed_speed(forward: bool) -> int {
    if forward {
        BALL_SPEED as int
    } else {
        -BALL_SPEED
    }
}

impl BallModel {
    /// The ball after `dt` microseconds of free flight.
    pub open spec fn flown(self, dt: int) -> BallModel {
        BallModel {
            pos: Vec2 { x: self.pos.x + self.vel.x * dt, y: self.pos.y + self.vel.y * dt },
            ..self
        }
    }

    /// What the ball has run into. Leaving the screen sideways is decided by
    /// the centre alone and comes first; the walls are met half a ball early.
    pub open spec fn collision(self, court: Court) -> CollisionType {
        if self.pos.x < 0 {
            CollisionType::LeftOOB
        } else if self.pos.x > court.width {
            CollisionType::RightOOB
        } else if self.pos.y < BALL_SIZE_HALF || self.pos.y > court.height - BALL_SIZE_HALF {
            CollisionType::Wall
        } else {
            CollisionType::Clear
        }
    }

    /// The ball back at home, leaving as the two coins say.
    pub open spec fn served(self, serve: Serve) -> BallModel {
        BallModel {
            pos: self.home,
            vel: Vec2 { x: signed_speed(serve.right), y: signed_speed(serve.down) },
            ..self
        }
    }

    /// The ball held below the top wall and sent downwards, if it was above.
    pub open spec fn off_top(self) -> BallModel {
        if self.pos.y < BALL_SIZE_HALF {
            BallModel {
                pos: Vec2 { x: self.pos.x, y: BALL_SIZE_HALF as int },
                vel: Vec2 { x: self.vel.x, y: abs(self.vel.y) as int },
                ..self
            }
        } else {
            self
        }
    }

    /// The ball held above the bottom wall and sent upwards, if it was below.
    pub open spec fn off_bottom(self, court: Court) -> BallModel {
        if self.pos.y > court.height - BALL_SIZE_HALF {
            BallModel {
                pos: Vec2 { x: self.pos.x, y: court.height - BALL_SIZE_HALF },
                vel: Vec2 { x: self.vel.x, y: -abs(self.vel.y) },
                ..self
            }
        } else {
            self
        }
    }

    /// The ball after the top wall, then the bottom wall, had their say.
    pub open spec fn bounced(self, court: Court) -> BallModel {
        self.off_top().off_bottom(court)
    }
}

/// At the ball's speed, no frame carries the ball further than `BALL_SPEED`
/// times the longest frame.
proof fn lemma_flight_is_short(v: int, dt: int)
    requires
        v == BALL_SPEED || v == -BALL_SPEED,
        0 <= dt <= u32::MAX,
    ensures
        -BALL_SPEED * u32::MAX <= v * dt <= BALL_SPEED * u32::MAX,
{
    if v == BALL_SPEED {
        assert(v * dt == BALL_SPEED * dt);
    } else {
        assert(v * dt == -BALL_SPEED * dt);
    }
}

/// The ball.
#[derive(Clone, Copy, Debug, PartialEq, Eq, Structural)]
pub struct Ball {
    /// Centre of the ball.
    pub pos: Point,
    pub vel: Velocity,
    /// Where every serve starts.
    pub home: Point,
}

impl View for Ball {
    type V = BallModel;

    open spec fn view(&self) -> BallModel {
        BallModel { pos: self.pos@, vel: self.vel@, home: self.home@ }
    }
}

impl Ball {
    /// Position and home lie within the coordinate range, and the velocity
    /// has the ball's speed along each axis.
    pub open spec fn wf(&self) -> bool {
        self.pos.wf() && self.vel.wf() && self.home.wf()
    }

    /// Tests `wf`.
    pub fn is_valid(&self) -> (ok: bool)
        ensures
            ok == self.wf(),
    {
        self.pos.is_valid() && self.vel.is_valid() && self.home.is_valid()
    }

    /// Puts the ball back at home and sends it off as the two coins say.
    pub fn serve(&mut self, serve: Serve)
        ensures
            final(self)@ == old(self)@.served(serve),
    {
        self.pos = self.home;
        self.vel.x = if serve.right {
            BALL_SPEED
        } else {
            -BALL_SPEED
        };
        self.vel.y = if serve.down {
            BALL_SPEED
        } else {
            -BALL_SPEED
        };
    }

    /// Puts the ball back at home and sends it off in a direction drawn at
    /// random.
    pub fn reset(&mut self)
        ensures
            exists|serve: Serve| final(self)@ == #[trigger] old(self)@.served(serve),
    {
        let serve = Serve::random();
        self.serve(serve);
    }

    /// Moves the ball for `dt` microseconds.
    pub fn update(&mut self, dt: u32)
        requires
            old(self).wf(),
        ensures
            final(self)@ == old(self)@.flown(dt as int),
    {
        proof {
            lemma_flight_is_short(self.vel.x as int, dt as int);
            lemma_flight_is_short(self.vel.y as int, dt as int);
        }
        self.pos.x = self.pos.x + self.vel.x * (dt as i64);
        self.pos.y = self.pos.y + self.vel.y * (dt as i64);
    }

    /// Tests for collisions with the edges of the screen.
    pub fn collided_wth(&self, screen: Screen) -> (hit: CollisionType)
        requires
            screen.wf(),
        ensures
            hit == self@.collision(screen@),
    {
        if self.pos.x < 0 {
            CollisionType::LeftOOB
        } else if self.pos.x > screen.width {
            CollisionType::RightOOB
        } else if self.pos.y < BALL_SIZE_HALF || self.pos.y > screen.height - BALL_SIZE_HALF {
            CollisionType::Wall
        } else {
            CollisionType::Clear
        }
    }

    /// Holds the ball between the top and the bottom wall and turns it away
    /// from the wall that it had crossed.
    pub fn bounce(&mut self, screen: Screen)
        requires
            old(self).vel.wf(),
            screen.wf(),
        ensures
            final(self)@ == old(self)@.bounced(screen@),
    {
        if self.pos.y < BALL_SIZE_HALF {
            self.pos.y = BALL_SIZE_HALF;
            self.vel.y = magnitude(self.vel.y);
        }
        if self.pos.y > screen.height - BALL_SIZE_HALF {
            self.pos.y = screen.height - BALL_SIZE_HALF;
            self.vel.y = -magnitude(self.vel.y);
        }
    }
}

} // verus!
