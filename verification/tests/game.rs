//! Tests of the per-tick update, the pointer response, and the fixed arena.

use breakout::App;
use breakout::Brick;
use breakout::Rectangle;
use breakout::get_bricks;
use breakout::get_edges;
use breakout::sim::COORD_MAX;
use breakout::sim::PAD_MAX_HEIGHT;
use breakout::sim::PAD_MIN_HEIGHT;

/// A state whose paddle is far from everything, with no walls and no bricks.
fn bare_app() -> App {
    App {
        ball_x: 100,
        ball_y: 100,
        ball_dx: 1,
        ball_dy: 1,
        pad_x: 5000,
        pad_y: 900,
        pad_dx: 0,
        pad_dy: 0,
        pad_min_y: PAD_MIN_HEIGHT,
        pad_max_y: PAD_MAX_HEIGHT,
        edges: vec![],
        bricks: vec![],
    }
}

#[test]
fn quiet_tick_moves_ball_by_velocity() {
    let mut app = bare_app();
    assert!(app.is_well_formed());
    app.update();
    assert_eq!((app.ball_x, app.ball_y), (101, 101));
    assert_eq!((app.ball_dx, app.ball_dy), (1, 1));
}

#[test]
fn wall_bounce_flips_vertical_velocity() {
    // Ball at (100,100), radius 25, moving (1,1); paddle and bricks far away;
    // the predicted position crosses into a boundary rectangle below: the
    // vertical velocity flips to -1 and the ball moves to (101, 99).
    let mut app = bare_app();
    app.edges = vec![Rectangle::new(0, 149, 1024, 100)];
    assert!(app.is_well_formed());
    app.update();
    assert_eq!((app.ball_dx, app.ball_dy), (1, -1));
    assert_eq!((app.ball_x, app.ball_y), (101, 99));
}

#[test]
fn two_walls_in_one_tick_compound() {
    // The first wall flips the vertical component; with the flipped velocity
    // the second wall is struck on a vertical face and flips the horizontal
    // component too.
    let mut app = bare_app();
    app.edges = vec![
        Rectangle::new(0, 149, 1024, 100),
        Rectangle::new(149, 0, 100, 1024),
    ];
    assert!(app.is_well_formed());
    app.update();
    assert_eq!((app.ball_dx, app.ball_dy), (-1, -1));
    assert_eq!((app.ball_x, app.ball_y), (99, 99));
}

#[test]
fn brick_centered_hit_breaks_and_flips_both() {
    // The ball's predicted center lands exactly at the center of an unbroken
    // brick: the brick breaks and both velocity components flip in the same
    // tick.
    let mut app = bare_app();
    app.bricks = vec![Brick::new(86, 111, 30, 80, false)];
    assert!(app.is_well_formed());
    app.update();
    assert!(app.bricks[0].state);
    assert_eq!((app.ball_dx, app.ball_dy), (-1, -1));
    assert_eq!((app.ball_x, app.ball_y), (99, 99));
}

#[test]
fn broken_brick_is_skipped() {
    // The same overlap against an already broken brick: nothing happens to
    // the velocity, and the brick stays broken.
    let mut app = bare_app();
    app.bricks = vec![Brick::new(86, 111, 30, 80, true)];
    assert!(app.is_well_formed());
    app.update();
    assert!(app.bricks[0].state);
    assert_eq!((app.ball_dx, app.ball_dy), (1, 1));
    assert_eq!((app.ball_x, app.ball_y), (101, 101));
}

#[test]
fn brick_flags_never_revert_over_ticks() {
    // Several ticks across the brick grid: flags only go from unbroken to
    // broken, never back.
    let mut app = bare_app();
    app.ball_x = 90;
    app.ball_y = 90;
    app.ball_dx = 3;
    app.ball_dy = 2;
    app.edges = get_edges();
    app.bricks = get_bricks();
    let mut seen = vec![false; app.bricks.len()];
    for _ in 0..200 {
        assert!(app.is_well_formed());
        app.update();
        for (i, b) in app.bricks.iter().enumerate() {
            if seen[i] {
                assert!(b.state);
            }
            if b.state {
                seen[i] = true;
            }
        }
    }
    assert!(seen.iter().any(|&s| s));
}

#[test]
fn paddle_bounce_takes_momentum_and_clamps() {
    // The predicted position is deep inside the paddle; the paddle's recorded
    // displacement is added to the reflected velocity and clamped to [-5, 5].
    let mut app = bare_app();
    app.ball_x = 100;
    app.ball_y = 100;
    app.ball_dx = 0;
    app.ball_dy = 0;
    app.pad_x = 50;
    app.pad_y = 105;
    app.pad_min_y = 0;
    app.pad_max_y = 1024;
    app.pad_dx = -20;
    app.pad_dy = 1;
    assert!(app.is_well_formed());
    app.update();
    // Both faces: dx = clamp(-0 - (-20)) = 5, dy = clamp(-0 - 1) = -1.
    assert_eq!((app.ball_dx, app.ball_dy), (5, -1));
    assert_eq!((app.ball_x, app.ball_y), (105, 99));
}

#[test]
fn paddle_horizontal_face_uses_vertical_momentum() {
    // Paddle top face struck: only the vertical component reflects, and the
    // paddle's vertical displacement is subtracted before clamping.
    let mut app = bare_app();
    app.pad_x = 76;
    app.pad_y = 149;
    app.pad_min_y = 0;
    app.pad_max_y = 1024;
    app.pad_dy = 2;
    assert!(app.is_well_formed());
    app.update();
    assert_eq!((app.ball_dx, app.ball_dy), (1, -3));
    assert_eq!((app.ball_x, app.ball_y), (101, 97));
}

#[test]
fn pointer_moves_paddle_and_records_velocity() {
    // Pointer moves from (550,550) to (560,550) with no ball nearby: the
    // paddle centers under the pointer at (510, 550) and records the
    // displacement (-10, 0); the ball is untouched.
    let mut app = bare_app();
    app.ball_x = 5000;
    app.ball_y = 5000;
    app.ball_dx = 0;
    app.ball_dy = 0;
    app.pad_x = 500;
    app.pad_y = 550;
    app.pad_min_y = 0;
    app.pad_max_y = 1024;
    assert!(app.is_well_formed());
    app.event(550, 550);
    assert_eq!((app.pad_x, app.pad_y), (500, 550));
    assert!(app.is_well_formed());
    app.event(560, 550);
    assert_eq!((app.pad_x, app.pad_y), (510, 550));
    assert_eq!((app.pad_dx, app.pad_dy), (-10, 0));
    assert_eq!((app.ball_x, app.ball_y), (5000, 5000));
    assert_eq!((app.ball_dx, app.ball_dy), (0, 0));
}

#[test]
fn pointer_far_outside_band_is_clamped() {
    let mut app = bare_app();
    app.ball_x = 5000;
    app.ball_y = 5000;
    assert!(app.is_well_formed());
    app.event(550, 100000);
    assert_eq!(app.pad_y, PAD_MAX_HEIGHT);
    assert!(app.is_well_formed());
    app.event(550, -100000);
    assert_eq!(app.pad_y, PAD_MIN_HEIGHT);
}

#[test]
fn pointer_push_leaves_paddle_flush_against_ball() {
    // The paddle sweeps down into a resting ball: the ball takes the paddle
    // response and the paddle stops flush against the ball instead of
    // following the pointer through it.
    let mut app = bare_app();
    app.ball_x = 500;
    app.ball_y = 500;
    app.ball_dx = 0;
    app.ball_dy = 0;
    app.pad_x = 475;
    app.pad_y = 400;
    app.pad_dx = 2;
    app.pad_dy = -3;
    app.pad_min_y = 0;
    app.pad_max_y = 1024;
    assert!(app.is_well_formed());
    app.event(525, 560);
    assert_eq!((app.ball_dx, app.ball_dy), (-2, 3));
    assert_eq!((app.pad_x, app.pad_y), (550, 500));
    assert_eq!((app.pad_dx, app.pad_dy), (0, -160));
}

#[test]
fn arena_edges_leave_bottom_open() {
    let edges = get_edges();
    assert_eq!(edges.len(), 3);
    assert_eq!(
        (edges[0].x, edges[0].y, edges[0].width, edges[0].height),
        (0, -100, 1024, 100)
    );
    assert_eq!(
        (edges[1].x, edges[1].y, edges[1].width, edges[1].height),
        (-100, 0, 100, 1024)
    );
    assert_eq!(
        (edges[2].x, edges[2].y, edges[2].width, edges[2].height),
        (1024, 0, 100, 1024)
    );
}

#[test]
fn brick_grid_is_two_rows_of_eight() {
    let bricks = get_bricks();
    assert_eq!(bricks.len(), 16);
    for (i, b) in bricks.iter().enumerate() {
        let col = (i % 8) as i64;
        let row = (i / 8) as i64;
        assert_eq!((b.x, b.y), (100 + 110 * col, 100 + 100 * row));
        assert_eq!((b.width, b.height), (80, 30));
        assert!(!b.state);
    }
}

#[test]
fn well_formedness_check_rejects_out_of_range() {
    let mut app = bare_app();
    assert!(app.is_well_formed());
    app.ball_x = COORD_MAX + 1;
    assert!(!app.is_well_formed());
    app.ball_x = 0;
    app.pad_y = PAD_MAX_HEIGHT + 1;
    assert!(!app.is_well_formed());
    app.pad_y = 900;
    app.bricks = vec![Brick::new(0, 0, -1, 10, false)];
    assert!(!app.is_well_formed());
}
