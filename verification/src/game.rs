//! The whole game: two rackets, the ball and the score, advanced frame by
//! frame.

use vstd::prelude::*;
use crate::ball::{Ball, BallModel, CollisionType};
use crate::geometry::{Court, Point, Screen, Vec2, Velocity};
use crate::input::{Keys, Player, Serve};
use crate::racket::{ball_hits_player, move_racket, racket_after};
use crate::units::{magnitude, BALL_SPEED, PADDING, RACKET_HEIGHT_HALF, RACKET_WIDTH_HALF};

verus! {

/// The game as contracts see it.
pub struct GameModel {
    /// Centre of the left racket.
    pub player_1: Vec2,
    /// Centre of the right racket.
    pub player_2: Vec2,
    pub ball: BallModel,
    pub score_1: nat,
    pub score_2: nat,
}

impl GameModel {
    /// The game before its first frame on a screen of the given size: both
    /// rackets half-way down, `PADDING` away from their sides, the ball served
    /// from the centre of the screen, nothing scored.
    pub open spec fn opening(court: Court, serve: Serve) -> GameModel {
        let centre = Vec2 { x: court.width / 2, y: court.height / 2 };
        GameModel {
            player_1: Vec2 { x: RACKET_WIDTH_HALF + PADDING, y: centre.y },
            player_2: Vec2 { x: court.width - RACKET_WIDTH_HALF - PADDING, y: centre.y },
            ball: BallModel { pos: centre, vel: Vec2 { x: 0, y: 0 }, home: centre }.served(serve),
            score_1: 0,
            score_2: 0,
        }
    }

    /// Both rackets moved by their keys for `dt` microseconds.
    pub open spec fn rackets_moved(self, dt: int, court: Court, keys: Keys) -> GameModel {
        GameModel {
            player_1: Vec2 {
                x: self.player_1.x,
                y: racket_after(
                    self.player_1.y,
                    keys.is_pressed(Player::One.up_key()),
                    keys.is_pressed(Player::One.down_key()),
                    dt,
                    court,
                ),
            },
            player_2: Vec2 {
                x: self.player_2.x,
                y: racket_after(
                    self.player_2.y,
                    keys.is_pressed(Player::Two.up_key()),
                    keys.is_pressed(Player::Two.down_key()),
                    dt,
                    court,
                ),
            },
            ..self
        }
    }

    /// The point awarded and the ball served anew, if the ball has left the
    /// screen: past the left edge the right player scores, past the right edge
    /// the left player does.
    pub open spec fn scored(self, court: Court, serve: Serve) -> GameModel {
        match self.ball.collision(court) {
            CollisionType::LeftOOB => GameModel {
                ball: self.ball.served(serve),
                score_2: self.score_2 + 1,
                ..self
            },
            CollisionType::RightOOB => GameModel {
                ball: self.ball.served(serve),
                score_1: self.score_1 + 1,
                ..self
            },
            _ => self,
        }
    }

    /// The ball turned away from the walls, then from the left racket, then
    /// from the right racket.
    pub open spec fn ball_turned(self, court: Court) -> GameModel {
        GameModel {
            ball: self.ball.bounced(court).off_left_racket(self.player_1).off_right_racket(
                self.player_2,
            ),
            ..self
        }
    }

    /// The game one frame later. The frame lasted `dt` microseconds on a
    /// screen of size `court` with `keys` held; `serve` is used if the ball
    /// leaves the screen in this frame.
    pub open spec fn step(self, dt: int, court: Court, keys: Keys, serve: Serve) -> GameModel {
        let moved = GameModel { ball: self.ball.flown(dt), ..self.rackets_moved(dt, court, keys) };
        moved.scored(court, serve).ball_turned(court)
    }
}

/// The state of the game.
#[derive(Clone, Copy, Debug, PartialEq, Eq, Structural)]
pub struct MainState {
    /// Centre of the left racket.
    pub player_1_pos: Point,
    /// Centre of the right racket.
    pub player_2_pos: Point,
    pub ball: Ball,
    pub player_1_score: u32,
    pub player_2_score: u32,
}

impl View for MainState {
    type V = GameModel;

    open spec fn view(&self) -> GameModel {
        GameModel {
            player_1: self.player_1_pos@,
            player_2: self.player_2_pos@,
            ball: self.ball@,
            score_1: self.player_1_score as nat,
            score_2: self.player_2_score as nat,
        }
    }
}

impl MainState {
    /// Rackets and ball lie within the coordinate range and the ball has its
    /// speed.
    pub open spec fn wf(&self) -> bool {
        self.player_1_pos.wf() && self.player_2_pos.wf() && self.ball.wf()
    }

    /// Both scores can still grow.
    pub open spec fn can_score(&self) -> bool {
        self.player_1_score < u32::MAX && self.player_2_score < u32::MAX
    }

    /// Tests `wf`.
    pub fn is_valid(&self) -> (ok: bool)
        ensures
            ok == self.wf(),
    {
        self.player_1_pos.is_valid() && self.player_2_pos.is_valid() && self.ball.is_valid()
    }

    /// Tests what `update` and `update_with` ask of the state and the screen.
    pub fn accepts(&self, screen: Screen) -> (ok: bool)
        ensures
            ok == (self.wf() && self.can_score() && screen.wf() && screen@.fits_racket()),
    {
        self.is_valid() && self.player_1_score < u32::MAX && self.player_2_score < u32::MAX
            && screen.is_valid() && screen.fits_racket()
    }

    /// The game before its first frame, with the first serve as given.
    pub fn with_serve(screen: Screen, serve: Serve) -> (state: MainState)
        requires
            screen.wf(),
        ensures
            state@ == GameModel::opening(screen@, serve),
            state.wf(),
    {
        let centre = Point { x: screen.width / 2, y: screen.height / 2 };
        let mut ball = Ball { pos: centre, vel: Velocity { x: 0, y: 0 }, home: centre };
        ball.serve(serve);
        MainState {
            player_1_pos: Point { x: RACKET_WIDTH_HALF + PADDING, y: centre.y },
            player_2_pos: Point { x: screen.width - RACKET_WIDTH_HALF - PADDING, y: centre.y },
            ball,
            player_1_score: 0,
            player_2_score: 0,
        }
    }

    /// The game before its first frame, with the first serve drawn at random.
    pub fn new(screen: Screen) -> (state: MainState)
        requires
            screen.wf(),
        ensures
            exists|serve: Serve| state@ == #[trigger] GameModel::opening(screen@, serve),
            state.wf(),
    {
        MainState::with_serve(screen, Serve::random())
    }

    /// Advances the game by one frame. A ball that leaves the screen is
    /// served as `given` says, or at random where nothing is given. Returns
    /// the serve for which the frame is a `step`.
    fn advance(&mut self, dt: u32, screen: Screen, keys: Keys, given: Option<Serve>) -> (used:
        Ghost<Serve>)
        requires
            old(self).wf(),
            old(self).can_score(),
            screen.wf(),
            screen@.fits_racket(),
        ensures
            given matches Some(serve) ==> used@ == serve,
            final(self)@ == old(self)@.step(dt as int, screen@, keys, used@),
            final(self).wf(),
    {
        let ghost mut used = match given {
            Some(serve) => serve,
            None => Serve { right: true, down: true },
        };
        move_racket(
            &mut self.player_1_pos,
            keys.is_pressed(Player::One.up_key()),
            keys.is_pressed(Player::One.down_key()),
            dt,
            screen,
        );
        move_racket(
            &mut self.player_2_pos,
            keys.is_pressed(Player::Two.up_key()),
            keys.is_pressed(Player::Two.down_key()),
            dt,
            screen,
        );
        self.ball.update(dt);
        let ghost flown = self.ball@;
        match self.ball.collided_wth(screen) {
            CollisionType::LeftOOB => {
                match given {
                    Some(serve) => self.ball.serve(serve),
                    None => {
                        self.ball.reset();
                        proof {
                            used = choose|serve: Serve| self.ball@ == flown.served(serve);
                        }
                    },
                }
                self.player_2_score = self.player_2_score + 1;
            },
            CollisionType::RightOOB => {
                match given {
                    Some(serve) => self.ball.serve(serve),
                    None => {
                        self.ball.reset();
                        proof {
                            used = choose|serve: Serve| self.ball@ == flown.served(serve);
                        }
                    },
                }
                self.player_1_score = self.player_1_score + 1;
            },
            _ => {},
        }
        self.ball.bounce(screen);
        if ball_hits_player(self.player_1_pos, self.ball.pos) {
            self.ball.vel.x = magnitude(self.ball.vel.x);
        }
        if ball_hits_player(self.player_2_pos, self.ball.pos) {
            self.ball.vel.x = -magnitude(self.ball.vel.x);
        }
        Ghost(used)
    }

    /// Advances the game by one frame of `dt` microseconds on a screen of the
    /// given size with `keys` held. If the ball leaves the screen, it is
    /// served as `serve` says.
    pub fn update_with(&mut self, dt: u32, screen: Screen, keys: Keys, serve: Serve)
        requires
            old(self).wf(),
            old(self).can_score(),
            screen.wf(),
            screen@.fits_racket(),
        ensures
            final(self)@ == old(self)@.step(dt as int, screen@, keys, serve),
            final(self).wf(),
            RACKET_HEIGHT_HALF <= final(self).player_1_pos.y <= screen.height - RACKET_HEIGHT_HALF,
            RACKET_HEIGHT_HALF <= final(self).player_2_pos.y <= screen.height - RACKET_HEIGHT_HALF,
    {
        let _ = self.advance(dt, screen, keys, Some(serve));
    }

    /// Advances the game by one frame of `dt` microseconds on a screen of the
    /// given size with `keys` held. If the ball leaves the screen, it is
    /// served in a direction drawn at random.
    pub fn update(&mut self, dt: u32, screen: Screen, keys: Keys)
        requires
            old(self).wf(),
            old(self).can_score(),
            screen.wf(),
            screen@.fits_racket(),
        ensures
            exists|serve: Serve|
                final(self)@ == #[trigger] old(self)@.step(dt as int, screen@, keys, serve),
            final(self).wf(),
            RACKET_HEIGHT_HALF <= final(self).player_1_pos.y <= screen.height - RACKET_HEIGHT_HALF,
            RACKET_HEIGHT_HALF <= final(self).player_2_pos.y <= screen.height - RACKET_HEIGHT_HALF,
    {
        let _ = self.advance(dt, screen, keys, None);
    }
}

} // verus!
