//! The parts of a frame, one at a time.

use rusty_pong::racket::{ball_hits_player, move_racket};
use rusty_pong::units::{
    clamp, magnitude, within_range, BALL_SIZE, BALL_SIZE_HALF, BALL_SPEED, MAX_COORD, PADDING,
    PIXEL, PLAYER_SPEED, RACKET_HEIGHT, RACKET_HEIGHT_HALF, RACKET_WIDTH, RACKET_WIDTH_HALF,
};
use rusty_pong::{Ball, CollisionType, Key, Keys, MainState, Player, Point, Screen, Serve, Velocity};

const WIDE: Screen = Screen { width: 800 * PIXEL, height: 600 * PIXEL };

fn ball_at(x: i64, y: i64) -> Ball {
    Ball {
        pos: Point { x, y },
        vel: Velocity { x: BALL_SPEED, y: BALL_SPEED },
        home: Point { x: 400 * PIXEL, y: 300 * PIXEL },
    }
}

#[test]
fn dimensions_are_in_millionths_of_a_pixel() {
    assert_eq!(PIXEL, 1_000_000);
    assert_eq!(PADDING, 40_000_000);
    assert_eq!(RACKET_HEIGHT, 100_000_000);
    assert_eq!(RACKET_WIDTH, 20_000_000);
    assert_eq!(RACKET_HEIGHT_HALF * 2, RACKET_HEIGHT);
    assert_eq!(RACKET_WIDTH_HALF * 2, RACKET_WIDTH);
    assert_eq!(BALL_SIZE, 30_000_000);
    assert_eq!(BALL_SIZE_HALF * 2, BALL_SIZE);
    assert_eq!(PLAYER_SPEED, 600);
    assert_eq!(BALL_SPEED, 300);
}

#[test]
fn clamp_keeps_values_between_the_bounds() {
    assert_eq!(clamp(5, 10, 20), 10);
    assert_eq!(clamp(25, 10, 20), 20);
    assert_eq!(clamp(15, 10, 20), 15);
    assert_eq!(clamp(10, 10, 10), 10);
    assert_eq!(magnitude(-300), 300);
    assert_eq!(magnitude(300), 300);
    assert_eq!(magnitude(0), 0);
}

#[test]
fn coordinate_range_is_closed() {
    assert!(within_range(MAX_COORD));
    assert!(within_range(-MAX_COORD));
    assert!(!within_range(MAX_COORD + 1));
    assert!(!within_range(-MAX_COORD - 1));
    assert!(Point { x: MAX_COORD, y: -MAX_COORD }.is_valid());
    assert!(!Point { x: 0, y: MAX_COORD + 1 }.is_valid());
}

#[test]
fn screens_are_checked() {
    assert!(WIDE.is_valid());
    assert!(WIDE.fits_racket());
    assert!(!Screen { width: -1, height: 600 * PIXEL }.is_valid());
    assert!(!Screen { width: 800 * PIXEL, height: MAX_COORD + 1 }.is_valid());
    assert!(Screen { width: 0, height: RACKET_HEIGHT }.fits_racket());
    assert!(!Screen { width: 800 * PIXEL, height: RACKET_HEIGHT - 1 }.fits_racket());
}

#[test]
fn velocities_are_checked() {
    assert!(Velocity { x: 300, y: -300 }.is_valid());
    assert!(Velocity { x: -300, y: 300 }.is_valid());
    assert!(!Velocity { x: -300, y: 0 }.is_valid());
    assert!(!Velocity { x: 301, y: 300 }.is_valid());
    assert!(ball_at(0, 0).is_valid());
    let mut fast = ball_at(0, 0);
    fast.vel.x = 600;
    assert!(!fast.is_valid());
}

#[test]
fn each_player_has_two_keys() {
    assert_eq!(Player::One.up_key(), Key::W);
    assert_eq!(Player::One.down_key(), Key::S);
    assert_eq!(Player::Two.up_key(), Key::Up);
    assert_eq!(Player::Two.down_key(), Key::Down);
    let keys = Keys { w: true, s: false, up: false, down: true };
    assert!(keys.is_pressed(Key::W));
    assert!(!keys.is_pressed(Key::S));
    assert!(!keys.is_pressed(Key::Up));
    assert!(keys.is_pressed(Key::Down));
}

#[test]
fn opening_centres_everything() {
    let state = MainState::with_serve(WIDE, Serve { right: false, down: false });
    assert_eq!(state.player_1_pos, Point { x: 50 * PIXEL, y: 300 * PIXEL });
    assert_eq!(state.player_2_pos, Point { x: 750 * PIXEL, y: 300 * PIXEL });
    assert_eq!(state.ball.pos, Point { x: 400 * PIXEL, y: 300 * PIXEL });
    assert_eq!(state.ball.home, Point { x: 400 * PIXEL, y: 300 * PIXEL });
    assert_eq!(state.ball.vel, Velocity { x: -300, y: -300 });
    assert_eq!(state.player_1_score, 0);
    assert_eq!(state.player_2_score, 0);
    assert!(state.is_valid());
}

#[test]
fn opening_on_an_odd_screen_rounds_down() {
    let odd = Screen { width: 801, height: 601 };
    let state = MainState::with_serve(odd, Serve { right: true, down: true });
    assert_eq!(state.ball.home, Point { x: 400, y: 300 });
    assert_eq!(state.player_2_pos.x, 801 - 50 * PIXEL);
}

#[test]
fn random_opening_is_valid() {
    let state = MainState::new(WIDE);
    assert!(state.accepts(WIDE));
    assert_eq!(state.ball.pos, Point { x: 400 * PIXEL, y: 300 * PIXEL });
    assert_eq!(state.ball.vel.x.abs(), BALL_SPEED);
    assert_eq!(state.ball.vel.y.abs(), BALL_SPEED);
    assert_eq!(state.player_1_score, 0);
    assert_eq!(state.player_2_score, 0);
}

#[test]
fn state_with_full_score_is_not_accepted() {
    let mut state = MainState::with_serve(WIDE, Serve { right: true, down: true });
    assert!(state.accepts(WIDE));
    state.player_1_score = u32::MAX;
    assert!(!state.accepts(WIDE));
    state.player_1_score = 0;
    assert!(!state.accepts(Screen { width: 800 * PIXEL, height: 99 * PIXEL }));
    state.player_2_pos.x = MAX_COORD + 1;
    assert!(!state.accepts(WIDE));
    assert!(!state.is_valid());
}

#[test]
fn serve_follows_the_coins() {
    let mut ball = ball_at(7, 9);
    ball.serve(Serve { right: true, down: true });
    assert_eq!(ball.pos, ball.home);
    assert_eq!(ball.vel, Velocity { x: 300, y: 300 });
    ball.serve(Serve { right: true, down: false });
    assert_eq!(ball.vel, Velocity { x: 300, y: -300 });
    ball.serve(Serve { right: false, down: true });
    assert_eq!(ball.vel, Velocity { x: -300, y: 300 });
    ball.serve(Serve { right: false, down: false });
    assert_eq!(ball.vel, Velocity { x: -300, y: -300 });
    assert_eq!(ball.home, Point { x: 400 * PIXEL, y: 300 * PIXEL });
}

#[test]
fn flight_is_speed_times_time() {
    let mut ball = ball_at(100 * PIXEL, 200 * PIXEL);
    ball.vel = Velocity { x: 300, y: -300 };
    ball.update(500_000);
    assert_eq!(ball.pos, Point { x: 250 * PIXEL, y: 50 * PIXEL });
    ball.update(0);
    assert_eq!(ball.pos, Point { x: 250 * PIXEL, y: 50 * PIXEL });
    ball.update(u32::MAX);
    assert_eq!(ball.pos.x, 250 * PIXEL + 300 * 4_294_967_295);
    assert_eq!(ball.pos.y, 50 * PIXEL - 300 * 4_294_967_295);
}

#[test]
fn sides_are_judged_by_the_centre_and_walls_by_the_box() {
    assert_eq!(ball_at(-1, 300 * PIXEL).collided_wth(WIDE), CollisionType::LeftOOB);
    assert_eq!(ball_at(0, 300 * PIXEL).collided_wth(WIDE), CollisionType::Clear);
    assert_eq!(ball_at(800 * PIXEL, 300 * PIXEL).collided_wth(WIDE), CollisionType::Clear);
    assert_eq!(ball_at(800 * PIXEL + 1, 300 * PIXEL).collided_wth(WIDE), CollisionType::RightOOB);
    assert_eq!(ball_at(400 * PIXEL, BALL_SIZE_HALF - 1).collided_wth(WIDE), CollisionType::Wall);
    assert_eq!(ball_at(400 * PIXEL, BALL_SIZE_HALF).collided_wth(WIDE), CollisionType::Clear);
    assert_eq!(ball_at(400 * PIXEL, 585 * PIXEL).collided_wth(WIDE), CollisionType::Clear);
    assert_eq!(ball_at(400 * PIXEL, 585 * PIXEL + 1).collided_wth(WIDE), CollisionType::Wall);
    assert_eq!(ball_at(-1, 0).collided_wth(WIDE), CollisionType::LeftOOB);
    assert_eq!(ball_at(800 * PIXEL + 1, 599 * PIXEL).collided_wth(WIDE), CollisionType::RightOOB);
}

#[test]
fn bounce_holds_the_ball_between_the_walls() {
    let mut ball = ball_at(400 * PIXEL, -5 * PIXEL);
    ball.vel = Velocity { x: -300, y: -300 };
    ball.bounce(WIDE);
    assert_eq!(ball.pos, Point { x: 400 * PIXEL, y: 15 * PIXEL });
    assert_eq!(ball.vel, Velocity { x: -300, y: 300 });

    let mut ball = ball_at(400 * PIXEL, 700 * PIXEL);
    ball.bounce(WIDE);
    assert_eq!(ball.pos, Point { x: 400 * PIXEL, y: 585 * PIXEL });
    assert_eq!(ball.vel, Velocity { x: 300, y: -300 });

    let mut ball = ball_at(400 * PIXEL, 15 * PIXEL);
    ball.vel = Velocity { x: 300, y: -300 };
    ball.bounce(WIDE);
    assert_eq!(ball.pos, Point { x: 400 * PIXEL, y: 15 * PIXEL });
    assert_eq!(ball.vel, Velocity { x: 300, y: -300 });

    // A ball that already flies away from the wall keeps its direction.
    let mut ball = ball_at(400 * PIXEL, 0);
    ball.bounce(WIDE);
    assert_eq!(ball.vel, Velocity { x: 300, y: 300 });
    assert_eq!(ball.pos.y, 15 * PIXEL);
}

#[test]
fn racket_moves_at_player_speed() {
    let mut pos = Point { x: 50 * PIXEL, y: 300 * PIXEL };
    move_racket(&mut pos, true, false, 250_000, WIDE);
    assert_eq!(pos, Point { x: 50 * PIXEL, y: 150 * PIXEL });
    move_racket(&mut pos, false, true, 500_000, WIDE);
    assert_eq!(pos, Point { x: 50 * PIXEL, y: 450 * PIXEL });
    move_racket(&mut pos, false, false, 500_000, WIDE);
    assert_eq!(pos, Point { x: 50 * PIXEL, y: 450 * PIXEL });
    move_racket(&mut pos, true, true, 500_000, WIDE);
    assert_eq!(pos, Point { x: 50 * PIXEL, y: 450 * PIXEL });
    move_racket(&mut pos, false, true, u32::MAX, WIDE);
    assert_eq!(pos.y, 550 * PIXEL);
    move_racket(&mut pos, true, false, u32::MAX, WIDE);
    assert_eq!(pos.y, 50 * PIXEL);
}

#[test]
fn racket_on_the_smallest_screen_has_one_place() {
    let tight = Screen { width: 800 * PIXEL, height: RACKET_HEIGHT };
    let mut pos = Point { x: 50 * PIXEL, y: 0 };
    move_racket(&mut pos, false, false, 0, tight);
    assert_eq!(pos.y, RACKET_HEIGHT_HALF);
    move_racket(&mut pos, false, true, 1_000_000, tight);
    assert_eq!(pos.y, RACKET_HEIGHT_HALF);
}

#[test]
fn boxes_that_touch_do_not_collide() {
    let racket = Point { x: 50 * PIXEL, y: 300 * PIXEL };
    // Half widths add up to 25 pixels, half heights to 65 pixels.
    assert!(ball_hits_player(racket, racket));
    assert!(ball_hits_player(racket, Point { x: 75 * PIXEL - 1, y: 300 * PIXEL }));
    assert!(!ball_hits_player(racket, Point { x: 75 * PIXEL, y: 300 * PIXEL }));
    assert!(ball_hits_player(racket, Point { x: 25 * PIXEL + 1, y: 300 * PIXEL }));
    assert!(!ball_hits_player(racket, Point { x: 25 * PIXEL, y: 300 * PIXEL }));
    assert!(ball_hits_player(racket, Point { x: 50 * PIXEL, y: 365 * PIXEL - 1 }));
    assert!(!ball_hits_player(racket, Point { x: 50 * PIXEL, y: 365 * PIXEL }));
    assert!(ball_hits_player(racket, Point { x: 50 * PIXEL, y: 235 * PIXEL + 1 }));
    assert!(!ball_hits_player(racket, Point { x: 50 * PIXEL, y: 235 * PIXEL }));
    assert!(ball_hits_player(racket, Point { x: 75 * PIXEL - 1, y: 365 * PIXEL - 1 }));
    assert!(!ball_hits_player(racket, Point { x: 400 * PIXEL, y: 300 * PIXEL }));
}
