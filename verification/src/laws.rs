//! What holds of every game, however it is played.

use vstd::prelude::*;
use vstd::math::abs;
use crate::ball::{BallModel, CollisionType};
use crate::game::GameModel;
use crate::geometry::Court;
use crate::input::{Keys, Serve};
use crate::racket::overlaps;
use crate::units::{BALL_SIZE_HALF, BALL_SPEED, RACKET_HEIGHT_HALF};

verus! {

/// What one frame is played with.
pub struct Frame {
    /// Length of the frame in microseconds.
    pub dt: nat,
    pub court: Court,
    pub keys: Keys,
    /// The serve in store, should the ball leave the screen.
    pub serve: Serve,
}

impl GameModel {
    /// The game after the given frames, played in order.
    pub open spec fn played(self, frames: Seq<Frame>) -> GameModel
        decreases frames.len(),
    {
        if frames.len() == 0 {
            self
        } else {
            let last = frames.last();
            self.played(frames.drop_last()).step(last.dt as int, last.court, last.keys, last.serve)
        }
    }

    /// Whether a racket with its centre at height `y` is wholly on the screen.
    pub open spec fn racket_on_screen(y: int, court: Court) -> bool {
        RACKET_HEIGHT_HALF <= y <= court.height - RACKET_HEIGHT_HALF
    }

    /// Whether nothing is left for a frame to correct: the rackets are on the
    /// screen, the ball is on it and clear of the walls, and a ball that
    /// overlaps a racket already flies as that racket sends it (the right
    /// racket has the last word where the ball overlaps both).
    pub open spec fn at_rest(self, court: Court) -> bool {
        &&& Self::racket_on_screen(self.player_1.y, court)
        &&& Self::racket_on_screen(self.player_2.y, court)
        &&& self.ball.collision(court) == CollisionType::Clear
        &&& overlaps(self.player_2, self.ball.pos) ==> self.ball.vel.x <= 0
        &&& overlaps(self.player_1, self.ball.pos) && !overlaps(self.player_2, self.ball.pos)
            ==> self.ball.vel.x >= 0
    }

    /// Whether the ball leaves the screen sideways in a frame of `dt`
    /// microseconds.
    pub open spec fn ball_leaves(self, dt: int, court: Court) -> bool {
        let hit = self.ball.flown(dt).collision(court);
        hit == CollisionType::LeftOOB || hit == CollisionType::RightOOB
    }
}

/// After a frame on a screen that a racket fits on, both rackets are wholly
/// on that screen, wherever they were before.
pub proof fn lemma_frame_keeps_rackets_on_screen(
    game: GameModel,
    dt: int,
    court: Court,
    keys: Keys,
    serve: Serve,
)
    requires
        court.fits_racket(),
    ensures
        GameModel::racket_on_screen(game.step(dt, court, keys, serve).player_1.y, court),
        GameModel::racket_on_screen(game.step(dt, court, keys, serve).player_2.y, court),
        game.step(dt, court, keys, serve).player_1.x == game.player_1.x,
        game.step(dt, court, keys, serve).player_2.x == game.player_2.x,
{
}

/// After any frames, the last of them on a screen that a racket fits on,
/// both rackets are wholly on that screen.
pub proof fn lemma_rackets_stay_on_screen(start: GameModel, frames: Seq<Frame>)
    requires
        frames.len() > 0,
        frames.last().court.fits_racket(),
    ensures
        GameModel::racket_on_screen(start.played(frames).player_1.y, frames.last().court),
        GameModel::racket_on_screen(start.played(frames).player_2.y, frames.last().court),
{
    let last = frames.last();
    lemma_frame_keeps_rackets_on_screen(
        start.played(frames.drop_last()),
        last.dt as int,
        last.court,
        last.keys,
        last.serve,
    );
}

/// A frame changes at most the sign of the ball's speed along each axis:
/// a ball at `BALL_SPEED` stays at `BALL_SPEED`.
pub proof fn lemma_frame_keeps_ball_speed(
    game: GameModel,
    dt: int,
    court: Court,
    keys: Keys,
    serve: Serve,
)
    requires
        game.ball.vel.at_ball_speed(),
    ensures
        game.step(dt, court, keys, serve).ball.vel.at_ball_speed(),
        abs(game.step(dt, court, keys, serve).ball.vel.x) == BALL_SPEED,
        abs(game.step(dt, court, keys, serve).ball.vel.y) == BALL_SPEED,
{
}

/// However long the game is played, the ball keeps `BALL_SPEED` along each
/// axis.
pub proof fn lemma_ball_speed_never_changes(start: GameModel, frames: Seq<Frame>)
    requires
        start.ball.vel.at_ball_speed(),
    ensures
        start.played(frames).ball.vel.at_ball_speed(),
        abs(start.played(frames).ball.vel.x) == BALL_SPEED,
        abs(start.played(frames).ball.vel.y) == BALL_SPEED,
    decreases frames.len(),
{
    if frames.len() > 0 {
        let last = frames.last();
        lemma_ball_speed_never_changes(start, frames.drop_last());
        lemma_frame_keeps_ball_speed(
            start.played(frames.drop_last()),
            last.dt as int,
            last.court,
            last.keys,
            last.serve,
        );
    }
}

/// A serve gives the ball `BALL_SPEED` along each axis, whatever it had.
pub proof fn lemma_serve_sets_ball_speed(ball: BallModel, serve: Serve)
    ensures
        ball.served(serve).vel.at_ball_speed(),
        ball.served(serve).pos == ball.home,
        ball.served(serve).home == ball.home,
{
}

/// The four serves send the ball in four different directions: the coins
/// can be read off the velocity.
pub proof fn lemma_serves_differ(ball: BallModel, a: Serve, b: Serve)
    ensures
        ball.served(a).vel == ball.served(b).vel <==> a == b,
        a.right <==> ball.served(a).vel.x > 0,
        a.down <==> ball.served(a).vel.y > 0,
{
}

/// A frame of no duration changes nothing, whatever keys are held, exactly
/// when the game is at rest on the frame's screen.
pub proof fn lemma_empty_frame_changes_nothing(
    game: GameModel,
    court: Court,
    keys: Keys,
    serve: Serve,
)
    requires
        court.fits_racket(),
    ensures
        game.step(0, court, keys, serve) == game <==> game.at_rest(court),
{
}

/// A frame leaves the game at rest on its screen, unless it served the ball
/// from a home that lies beyond the left or right edge of that screen.
pub proof fn lemma_frame_ends_at_rest(
    game: GameModel,
    dt: int,
    court: Court,
    keys: Keys,
    serve: Serve,
)
    requires
        court.fits_racket(),
    ensures
        game.step(dt, court, keys, serve).at_rest(court) <==> (game.ball_leaves(dt, court) ==> 0
            <= game.ball.home.x <= court.width),
{
}

/// A frame of no duration that follows a frame on the same screen changes
/// nothing, if the ball's home is on that screen.
pub proof fn lemma_empty_frame_after_frame(
    game: GameModel,
    dt: int,
    court: Court,
    keys: Keys,
    serve: Serve,
    later_keys: Keys,
    later_serve: Serve,
)
    requires
        court.fits_racket(),
        0 <= game.ball.home.x <= court.width,
    ensures
        game.step(dt, court, keys, serve).step(0, court, later_keys, later_serve) == game.step(
            dt,
            court,
            keys,
            serve,
        ),
{
    lemma_frame_ends_at_rest(game, dt, court, keys, serve);
    lemma_empty_frame_changes_nothing(
        game.step(dt, court, keys, serve),
        court,
        later_keys,
        later_serve,
    );
}

/// A frame takes no point away. It awards one point when the ball leaves
/// the screen, to the player on the other side, and none otherwise.
pub proof fn lemma_frame_scores(game: GameModel, dt: int, court: Court, keys: Keys, serve: Serve)
    ensures
        ({
            let next = game.step(dt, court, keys, serve);
            let hit = game.ball.flown(dt).collision(court);
            &&& next.score_1 == game.score_1 + if hit == CollisionType::RightOOB {
                1nat
            } else {
                0nat
            }
            &&& next.score_2 == game.score_2 + if hit == CollisionType::LeftOOB {
                1nat
            } else {
                0nat
            }
        }),
{
}

/// However the game is played, no score ever falls, and the two scores
/// together grow by no more than one point a frame.
pub proof fn lemma_scores_never_fall(start: GameModel, frames: Seq<Frame>)
    ensures
        start.played(frames).score_1 >= start.score_1,
        start.played(frames).score_2 >= start.score_2,
        start.played(frames).score_1 + start.played(frames).score_2 <= start.score_1
            + start.score_2 + frames.len(),
    decreases frames.len(),
{
    if frames.len() > 0 {
        let last = frames.last();
        lemma_scores_never_fall(start, frames.drop_last());
        lemma_frame_scores(
            start.played(frames.drop_last()),
            last.dt as int,
            last.court,
            last.keys,
            last.serve,
        );
    }
}

} // verus!
