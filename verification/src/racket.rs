//! The rackets: how the keys move one, and when the ball touches one.

use vstd::prelude::*;
use vstd::math::abs;
use crate::ball::BallModel;
use crate::geometry::{Court, Point, Screen, Vec2};
use crate::units::{
    clamp, clamped, BALL_SIZE_HALF, PLAYER_SPEED, RACKET_HEIGHT_HALF, RACKET_WIDTH_HALF,
};

verus! {

/// How far a held key carries a racket in `dt` microseconds.
pub open spec fn stroke(held: bool, dt: int) -> int {
    if held {
        PLAYER_SPEED * dt
    } else {
        0
    }
}

/// Height of a racket's centre after one frame: the up key takes the racket
/// up, the down key takes it down, both together leave it in place, and the
/// result is kept so far from the top and bottom edge that the whole racket
/// is on the screen.
pub open spec fn racket_after(y: int, up: bool, down: bool, dt: int, court: Court) -> int {
    clamped(
        y - stroke(up, dt) + stroke(down, dt),
        RACKET_HEIGHT_HALF as int,
        court.height - RACKET_HEIGHT_HALF,
    )
}

/// Whether the square of the ball and the rectangle of the racket share
/// inner points. Boxes that merely touch along an edge do not.
pub open spec fn overlaps(racket: Vec2, ball: Vec2) -> bool {
    &&& ball.x - BALL_SIZE_HALF < racket.x + RACKET_WIDTH_HALF
    &&& ball.x + BALL_SIZE_HALF > racket.x - RACKET_WIDTH_HALF
    &&& ball.y - BALL_SIZE_HALF < racket.y + RACKET_HEIGHT_HALF
    &&& ball.y + BALL_SIZE_HALF > racket.y - RACKET_HEIGHT_HALF
}

impl BallModel {
    /// The ball sent to the right if it overlaps the left player's racket.
    /// Position and vertical speed stay as they are.
    pub open spec fn off_left_racket(self, racket: Vec2) -> BallModel {
        if overlaps(racket, self.pos) {
            BallModel { vel: Vec2 { x: abs(self.vel.x) as int, y: self.vel.y }, ..self }
        } else {
            self
        }
    }

    /// The ball sent to the left if it overlaps the right player's racket.
    /// Position and vertical speed stay as they are.
    pub open spec fn off_right_racket(self, racket: Vec2) -> BallModel {
        if overlaps(racket, self.pos) {
            BallModel { vel: Vec2 { x: -abs(self.vel.x), y: self.vel.y }, ..self }
        } else {
            self
        }
    }
}

/// Moves a racket for one frame of `dt` microseconds with the given keys
/// held, and keeps it on the screen.
pub fn move_racket(pos: &mut Point, up: bool, down: bool, dt: u32, screen: Screen)
    requires
        old(pos).wf(),
        screen.wf(),
        screen@.fits_racket(),
    ensures
        final(pos).x == old(pos).x,
        final(pos).y == racket_after(old(pos).y as int, up, down, dt as int, screen@),
        RACKET_HEIGHT_HALF <= final(pos).y <= screen.height - RACKET_HEIGHT_HALF,
        final(pos).wf(),
{
    let travel = PLAYER_SPEED * (dt as i64);
    let mut y = pos.y;
    if up {
        y = y - travel;
    }
    if down {
        y = y + travel;
    }
    pos.y = clamp(y, RACKET_HEIGHT_HALF, screen.height - RACKET_HEIGHT_HALF);
}

/// If the ball and a racket collide, returns true.
pub fn ball_hits_player(player: Point, ball: Point) -> (hit: bool)
    requires
        player.wf(),
        ball.wf(),
    ensures
        hit == overlaps(player@, ball@),
{
    ball.x - BALL_SIZE_HALF < player.x + RACKET_WIDTH_HALF && ball.x + BALL_SIZE_HALF > player.x
        - RACKET_WIDTH_HALF && ball.y - BALL_SIZE_HALF < player.y + RACKET_HEIGHT_HALF && ball.y
        + BALL_SIZE_HALF > player.y - RACKET_HEIGHT_HALF
}

} // verus!
