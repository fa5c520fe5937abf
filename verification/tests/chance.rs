//! Serves drawn at random.

use rusty_pong::units::{BALL_SPEED, PIXEL};
use rusty_pong::{Ball, Point, Serve, Velocity};

fn index(vel: Velocity) -> usize {
    assert_eq!(vel.x.abs(), BALL_SPEED);
    assert_eq!(vel.y.abs(), BALL_SPEED);
    (if vel.x > 0 { 2 } else { 0 }) + (if vel.y > 0 { 1 } else { 0 })
}

fn count_resets(n: usize) -> [usize; 4] {
    let home = Point { x: 400 * PIXEL, y: 300 * PIXEL };
    let mut ball = Ball { pos: Point { x: 1, y: 2 }, vel: Velocity { x: 300, y: 300 }, home };
    let mut counts = [0usize; 4];
    let mut i = 0;
    while i < n {
        ball.pos = Point { x: i as i64, y: -(i as i64) };
        ball.reset();
        assert_eq!(ball.pos, home);
        assert_eq!(ball.home, home);
        counts[index(ball.vel)] += 1;
        i += 1;
    }
    counts
}

#[test]
fn reset_is_fair() {
    let counts = count_resets(10_000);
    assert_eq!(counts.iter().sum::<usize>(), 10_000);
    for count in counts {
        // Seven standard deviations of a count with mean 2500.
        assert!(count > 2_200 && count < 2_800, "{:?}", counts);
    }
}

#[test]
fn reset_is_fair_from_a_fixed_seed() {
    fastrand::seed(0x5eed);
    let counts = count_resets(10_000);
    for count in counts {
        assert!(count > 2_200 && count < 2_800, "{:?}", counts);
    }
}

#[test]
fn random_serves_are_fair() {
    let mut counts = [0usize; 4];
    let mut i = 0;
    while i < 10_000 {
        let serve = Serve::random();
        counts[(if serve.right { 2 } else { 0 }) + (if serve.down { 1 } else { 0 })] += 1;
        i += 1;
    }
    for count in counts {
        assert!(count > 2_200 && count < 2_800, "{:?}", counts);
    }
}

#[test]
fn coins_of_one_seed_repeat() {
    fastrand::seed(42);
    let mut first = Vec::new();
    let mut i = 0;
    while i < 64 {
        first.push(Serve::random());
        i += 1;
    }
    fastrand::seed(42);
    let mut i = 0;
    while i < 64 {
        assert_eq!(Serve::random(), first[i]);
        i += 1;
    }
    assert!(first.iter().any(|serve| serve.right));
    assert!(first.iter().any(|serve| !serve.right));
    assert!(first.iter().any(|serve| serve.down));
    assert!(first.iter().any(|serve| !serve.down));
}
