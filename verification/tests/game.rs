use pong::game::{Ball, Direction, Game, Inputs, Paddle, PlayState, Screen, Score};

fn no_keys() -> Inputs {
    Inputs { p1_up: false, p1_down: false, p2_up: false, p2_down: false }
}

fn base_screen() -> Screen {
    Screen { width: 1280, height: 720 }
}

#[test]
fn new_game_is_stopped_at_center() {
    let g = Game::new();
    assert_eq!(g.state, PlayState::Stopped);
    assert_eq!(g.ball, Ball { x: 640_000, y: 360_000, radius: 10_000 });
    assert_eq!(g.paddle1, Paddle { x: 10_000, y: 355_000, width: 5_000, height: 50_000 });
    assert_eq!(g.paddle2, Paddle { x: 1_270_000, y: 355_000, width: 5_000, height: 50_000 });
    assert_eq!(g.score, Score { blue: 0, red: 0 });
    assert!(g.is_well_formed());
}

#[test]
fn stopped_tick_changes_nothing() {
    let mut g = Game::new();
    let before = g;
    let ok = g.try_tick(no_keys(), 4000, base_screen());
    assert!(ok);
    assert_eq!(g, before);
}

#[test]
fn tick_below_interval_is_skipped() {
    let mut g = Game::new();
    let before = g;
    let keys = Inputs { p1_up: true, p1_down: false, p2_up: false, p2_down: true };
    let ok = g.try_tick(keys, 3999, base_screen());
    assert!(ok);
    assert_eq!(g, before);
}

#[test]
fn first_move_starts_running_top_left() {
    let mut g = Game::new();
    let keys = Inputs { p1_up: true, p1_down: false, p2_up: false, p2_down: false };
    let ok = g.try_tick(keys, 4000, base_screen());
    assert!(ok);
    assert_eq!(g.state, PlayState::Running(Direction::TopLeft));
    // Paddle one moved up two pixels; the started ball already moved once.
    assert_eq!(g.paddle1.y, 353_000);
    assert_eq!(g.ball, Ball { x: 639_000, y: 359_000, radius: 10_000 });
}

#[test]
fn down_key_moves_second_paddle_and_starts_play() {
    let mut g = Game::new();
    let keys = Inputs { p1_up: false, p1_down: false, p2_up: false, p2_down: true };
    let ok = g.try_tick(keys, 4000, base_screen());
    assert!(ok);
    assert_eq!(g.state, PlayState::Running(Direction::TopLeft));
    assert_eq!(g.paddle2.y, 357_000);
    assert_eq!(g.paddle1.y, 355_000);
}

#[test]
fn up_key_wins_over_down_key() {
    let mut g = Game::new();
    let keys = Inputs { p1_up: true, p1_down: true, p2_up: false, p2_down: false };
    let ok = g.try_tick(keys, 4000, base_screen());
    assert!(ok);
    assert_eq!(g.paddle1.y, 353_000);
}

#[test]
fn paddle_up_blocked_above_top_border() {
    let mut g = Game::new();
    g.paddle1.y = -1_000;
    let keys = Inputs { p1_up: true, p1_down: false, p2_up: false, p2_down: false };
    let ok = g.try_tick(keys, 4000, base_screen());
    assert!(ok);
    assert_eq!(g.paddle1.y, -1_000);
    assert_eq!(g.state, PlayState::Stopped);
}

#[test]
fn paddle_down_blocked_below_bottom_border() {
    let mut g = Game::new();
    g.paddle1.y = 671_000;
    let keys = Inputs { p1_up: false, p1_down: true, p2_up: false, p2_down: false };
    let ok = g.try_tick(keys, 4000, base_screen());
    assert!(ok);
    assert_eq!(g.paddle1.y, 671_000);
    assert_eq!(g.state, PlayState::Stopped);
}

#[test]
fn paddle_down_allowed_with_bottom_edge_on_border() {
    let mut g = Game::new();
    g.paddle1.y = 670_000;
    let keys = Inputs { p1_up: false, p1_down: true, p2_up: false, p2_down: false };
    let ok = g.try_tick(keys, 4000, base_screen());
    assert!(ok);
    assert_eq!(g.paddle1.y, 672_000);
    assert_eq!(g.state, PlayState::Running(Direction::TopLeft));
}

#[test]
fn right_exit_scores_blue_and_resets() {
    let mut g = Game::new();
    g.ball = Ball { x: 1_270_000, y: 360_000, radius: 10_000 };
    g.state = PlayState::Running(Direction::TopRight);
    let ok = g.try_tick(no_keys(), 4000, base_screen());
    assert!(ok);
    assert_eq!(g.score, Score { blue: 1, red: 0 });
    assert_eq!(g.ball, Ball { x: 640_000, y: 360_000, radius: 10_000 });
    assert_eq!(g.state, PlayState::Stopped);
}

#[test]
fn left_exit_scores_red_and_resets() {
    let mut g = Game::new();
    g.ball = Ball { x: 10_000, y: 360_000, radius: 10_000 };
    g.state = PlayState::Running(Direction::TopLeft);
    let ok = g.try_tick(no_keys(), 4000, base_screen());
    assert!(ok);
    assert_eq!(g.score, Score { blue: 0, red: 1 });
    assert_eq!(g.ball, Ball { x: 640_000, y: 360_000, radius: 10_000 });
    assert_eq!(g.state, PlayState::Stopped);
}

#[test]
fn paddle1_collision_flips_horizontal_only() {
    let mut g = Game::new();
    g.ball = Ball { x: 15_000, y: 380_000, radius: 10_000 };
    g.state = PlayState::Running(Direction::TopLeft);
    let ok = g.try_tick(no_keys(), 4000, base_screen());
    assert!(ok);
    // Moved one pixel toward the top left, then the contact flipped the
    // horizontal component; the vertical component is still `Top`.
    assert_eq!(g.ball, Ball { x: 14_000, y: 379_000, radius: 10_000 });
    assert_eq!(g.state, PlayState::Running(Direction::TopRight));
    assert_eq!(g.score, Score { blue: 0, red: 0 });
}

#[test]
fn paddle2_collision_flips_horizontal_only() {
    let mut g = Game::new();
    g.ball = Ball { x: 1_266_000, y: 380_000, radius: 10_000 };
    g.state = PlayState::Running(Direction::BottomRight);
    let ok = g.try_tick(no_keys(), 4000, base_screen());
    assert!(ok);
    assert_eq!(g.ball, Ball { x: 1_267_000, y: 381_000, radius: 10_000 });
    assert_eq!(g.state, PlayState::Running(Direction::BottomLeft));
    assert_eq!(g.score, Score { blue: 0, red: 0 });
}

#[test]
fn top_border_bounce_flips_vertical_only() {
    let mut g = Game::new();
    g.ball = Ball { x: 640_000, y: 5_000, radius: 10_000 };
    g.state = PlayState::Running(Direction::TopRight);
    let ok = g.try_tick(no_keys(), 4000, base_screen());
    assert!(ok);
    // Reflected downward before moving; the horizontal component is still
    // `Right`.
    assert_eq!(g.state, PlayState::Running(Direction::BottomRight));
    assert_eq!(g.ball, Ball { x: 641_000, y: 6_000, radius: 10_000 });
}

#[test]
fn bottom_border_bounce_flips_vertical_only() {
    let mut g = Game::new();
    g.ball = Ball { x: 640_000, y: 715_000, radius: 10_000 };
    g.state = PlayState::Running(Direction::BottomLeft);
    let ok = g.try_tick(no_keys(), 4000, base_screen());
    assert!(ok);
    assert_eq!(g.state, PlayState::Running(Direction::TopLeft));
    assert_eq!(g.ball, Ball { x: 639_000, y: 714_000, radius: 10_000 });
}

#[test]
fn catch_up_multiplier_scales_movement() {
    let mut g = Game::new();
    g.state = PlayState::Running(Direction::BottomRight);
    let keys = Inputs { p1_up: false, p1_down: true, p2_up: false, p2_down: false };
    let ok = g.try_tick(keys, 8000, base_screen());
    assert!(ok);
    // Twice the interval: the ball moves two pixels, the paddle four.
    assert_eq!(g.ball, Ball { x: 642_000, y: 362_000, radius: 10_000 });
    assert_eq!(g.paddle1.y, 359_000);
}

#[test]
fn contact_while_stopped_is_refused_unchanged() {
    let mut g = Game::new();
    g.ball = Ball { x: 14_000, y: 380_000, radius: 10_000 };
    let before = g;
    let ok = g.try_tick(no_keys(), 4000, base_screen());
    assert!(!ok);
    assert_eq!(g, before);
}

#[test]
fn contact_moving_away_is_refused_unchanged() {
    let mut g = Game::new();
    g.ball = Ball { x: 13_000, y: 380_000, radius: 10_000 };
    g.state = PlayState::Running(Direction::TopRight);
    let before = g;
    // Moving right, the ball still ends within the first paddle's reach.
    let ok = g.try_tick(no_keys(), 4000, base_screen());
    assert!(!ok);
    assert_eq!(g, before);
}

#[test]
fn smaller_window_scales_border_checks() {
    // In a half-height window the scaled bottom border is reached by the
    // same logical coordinates.
    let mut g = Game::new();
    let screen = Screen { width: 640, height: 360 };
    g.ball = Ball { x: 640_000, y: 715_000, radius: 10_000 };
    g.state = PlayState::Running(Direction::BottomRight);
    let ok = g.try_tick(no_keys(), 4000, screen);
    assert!(ok);
    assert_eq!(g.state, PlayState::Running(Direction::TopRight));
}

#[test]
fn well_formedness_bounds_coordinates() {
    let mut g = Game::new();
    assert!(g.is_well_formed());
    g.ball.x = 2_000_000_000_000_000;
    assert!(!g.is_well_formed());
}

#[test]
fn flips_invert_exactly_one_component() {
    assert_eq!(Direction::TopLeft.flip_horizontal(), Direction::TopRight);
    assert_eq!(Direction::TopRight.flip_horizontal(), Direction::TopLeft);
    assert_eq!(Direction::BottomLeft.flip_horizontal(), Direction::BottomRight);
    assert_eq!(Direction::BottomRight.flip_horizontal(), Direction::BottomLeft);
    assert_eq!(Direction::TopLeft.flip_vertical(), Direction::BottomLeft);
    assert_eq!(Direction::TopRight.flip_vertical(), Direction::BottomRight);
    assert_eq!(Direction::BottomLeft.flip_vertical(), Direction::TopLeft);
    assert_eq!(Direction::BottomRight.flip_vertical(), Direction::TopRight);
}
