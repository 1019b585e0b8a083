//! The ball motion and collision resolver of a two-player paddle game.
//!
//! The playing field is the fixed logical space of 1280 by 720 pixels. To
//! keep fractional movement exact, every coordinate in this module is held in
//! fixed-point units of one thousandth of a logical pixel (`PIXEL` units per
//! pixel). The window that displays the field may have any size; border tests
//! scale logical coordinates by the ratio of the window dimension to the base
//! dimension, computed here as exact cross-multiplied integer comparisons.
//!
//! One call of [`Game::tick`] is one logical update: it moves the paddles by
//! the held keys, advances the ball along its diagonal, bounces it off the
//! top and bottom borders, scores a ball that left through a side border, and
//! flips the ball's horizontal direction on paddle contact.

use vstd::prelude::*;

verus! {

/// Coordinate units per logical pixel.
pub const PIXEL: i64 = 1000;

/// Width of the logical space, in pixels.
pub const BASE_WIDTH_PX: i64 = 1280;

/// Height of the logical space, in pixels.
pub const BASE_HEIGHT_PX: i64 = 720;

/// Width of the logical space, in units.
pub const BASE_WIDTH: i64 = 1280 * 1000;

/// Height of the logical space, in units.
pub const BASE_HEIGHT: i64 = 720 * 1000;

/// Horizontal center of the logical space, in units.
pub const CENTER_X: i64 = 640 * 1000;

/// Vertical center of the logical space, in units.
pub const CENTER_Y: i64 = 360 * 1000;

/// Minimum elapsed time between two logical updates, in microseconds.
pub const TICK_INTERVAL_US: u64 = 4000;

/// Largest magnitude of a coordinate that a tick accepts, in units: one
/// billion logical pixels, far past anything reachable in play, bounded so
/// that the fixed-point arithmetic of a tick stays exact in 64 bits.
pub const COORD_LIMIT: i64 = 1_000_000_000_000_000;

/// Largest elapsed time a tick accepts, in microseconds (about 31 years),
/// bounded so that the catch-up displacement stays exact in 64 bits.
pub const ELAPSED_LIMIT: u64 = 1_000_000_000_000_000;

/// Largest movement multiplier a tick can produce, in thousandths:
/// `ELAPSED_LIMIT` divided by the tick interval in milliseconds.
pub const MULT_LIMIT: i64 = 250_000_000_000_000;

/// The diagonal the ball travels along: one horizontal and one vertical step
/// per multiplier unit. `Top` means toward smaller `y`, `Left` toward
/// smaller `x`.
#[derive(Clone, Copy, PartialEq, Eq, Structural, Debug)]
pub enum Direction {
    TopLeft,
    TopRight,
    BottomLeft,
    BottomRight,
}

/// Whether the ball is in play. A direction is carried only while running;
/// play always starts toward the top left.
#[derive(Clone, Copy, PartialEq, Eq, Structural, Debug)]
pub enum PlayState {
    Stopped,
    Running(Direction),
}

/// The ball: center position and radius, in units.
#[derive(Clone, Copy, PartialEq, Eq, Structural, Debug)]
pub struct Ball {
    pub x: i64,
    pub y: i64,
    pub radius: i64,
}

/// A player's paddle: an axis-aligned rectangle, in units.
#[derive(Clone, Copy, PartialEq, Eq, Structural, Debug)]
pub struct Paddle {
    pub x: i64,
    pub y: i64,
    pub width: i64,
    pub height: i64,
}

/// The two score counters.
#[derive(Clone, Copy, PartialEq, Eq, Structural, Debug)]
pub struct Score {
    pub blue: u64,
    pub red: u64,
}

/// The movement keys held during one tick.
#[derive(Clone, Copy, PartialEq, Eq, Structural, Debug)]
pub struct Inputs {
    pub p1_up: bool,
    pub p1_down: bool,
    pub p2_up: bool,
    pub p2_down: bool,
}

/// The current window dimensions, in physical pixels.
#[derive(Clone, Copy, PartialEq, Eq, Structural, Debug)]
pub struct Screen {
    pub width: i32,
    pub height: i32,
}

/// The whole game state that a tick reads and writes.
#[derive(Clone, Copy, PartialEq, Eq, Structural, Debug)]
pub struct Game {
    pub state: PlayState,
    pub ball: Ball,
    pub paddle1: Paddle,
    pub paddle2: Paddle,
    pub score: Score,
}

/// Mathematical model of a ball: unbounded integers.
pub struct BallV {
    pub x: int,
    pub y: int,
    pub radius: int,
}

/// Mathematical model of a paddle.
pub struct PaddleV {
    pub x: int,
    pub y: int,
    pub width: int,
    pub height: int,
}

/// Mathematical model of the score counters.
pub struct ScoreV {
    pub blue: int,
    pub red: int,
}

/// Mathematical model of the window dimensions.
pub struct ScreenV {
    pub width: int,
    pub height: int,
}

/// Mathematical model of the whole game state.
pub struct GameV {
    pub state: PlayState,
    pub ball: BallV,
    pub paddle1: PaddleV,
    pub paddle2: PaddleV,
    pub score: ScoreV,
}

impl View for Ball {
    type V = BallV;

    open spec fn view(&self) -> BallV {
        BallV { x: self.x as int, y: self.y as int, radius: self.radius as int }
    }
}

impl View for Paddle {
    type V = PaddleV;

    open spec fn view(&self) -> PaddleV {
        PaddleV {
            x: self.x as int,
            y: self.y as int,
            width: self.width as int,
            height: self.height as int,
        }
    }
}

impl View for Score {
    type V = ScoreV;

    open spec fn view(&self) -> ScoreV {
        ScoreV { blue: self.blue as int, red: self.red as int }
    }
}

impl View for Screen {
    type V = ScreenV;

    open spec fn view(&self) -> ScreenV {
        ScreenV { width: self.width as int, height: self.height as int }
    }
}

impl View for Game {
    type V = GameV;

    open spec fn view(&self) -> GameV {
        GameV {
            state: self.state,
            ball: self.ball@,
            paddle1: self.paddle1@,
            paddle2: self.paddle2@,
            score: self.score@,
        }
    }
}

impl BallV {
    /// Coordinates small enough for a tick's arithmetic.
    pub open spec fn wf(self) -> bool {
        &&& -COORD_LIMIT <= self.x <= COORD_LIMIT
        &&& -COORD_LIMIT <= self.y <= COORD_LIMIT
        &&& -COORD_LIMIT <= self.radius <= COORD_LIMIT
    }
}

impl PaddleV {
    /// Coordinates small enough for a tick's arithmetic.
    pub open spec fn wf(self) -> bool {
        &&& -COORD_LIMIT <= self.x <= COORD_LIMIT
        &&& -COORD_LIMIT <= self.y <= COORD_LIMIT
        &&& -COORD_LIMIT <= self.width <= COORD_LIMIT
        &&& -COORD_LIMIT <= self.height <= COORD_LIMIT
    }
}

impl ScoreV {
    /// Headroom for one more scoring event in each counter.
    pub open spec fn wf(self) -> bool {
        &&& 0 <= self.blue < u64::MAX
        &&& 0 <= self.red < u64::MAX
    }
}

impl GameV {
    /// What a tick requires of the state it is given.
    pub open spec fn wf(self) -> bool {
        &&& self.ball.wf()
        &&& self.paddle1.wf()
        &&& self.paddle2.wf()
        &&& self.score.wf()
    }
}

impl Direction {
    /// Whether the horizontal component points toward smaller `x`.
    pub open spec fn moving_left(self) -> bool {
        self == Direction::TopLeft || self == Direction::BottomLeft
    }

    /// Whether the vertical component points toward smaller `y`.
    pub open spec fn moving_up(self) -> bool {
        self == Direction::TopLeft || self == Direction::TopRight
    }

    /// The same vertical component with the horizontal component inverted.
    pub open spec fn flipped_horizontally(self) -> Direction {
        match self {
            Direction::TopLeft => Direction::TopRight,
            Direction::TopRight => Direction::TopLeft,
            Direction::BottomLeft => Direction::BottomRight,
            Direction::BottomRight => Direction::BottomLeft,
        }
    }

    /// The same horizontal component with the vertical component inverted.
    pub open spec fn flipped_vertically(self) -> Direction {
        match self {
            Direction::TopLeft => Direction::BottomLeft,
            Direction::TopRight => Direction::BottomRight,
            Direction::BottomLeft => Direction::TopLeft,
            Direction::BottomRight => Direction::TopRight,
        }
    }

    /// Sign of the horizontal displacement per multiplier unit.
    pub open spec fn step_x(self) -> int {
        if self.moving_left() { -1 } else { 1 }
    }

    /// Sign of the vertical displacement per multiplier unit.
    pub open spec fn step_y(self) -> int {
        if self.moving_up() { -1 } else { 1 }
    }
}

/// The catch-up movement multiplier of a tick, in thousandths: the elapsed
/// time over the tick interval. A tick that arrives exactly on time moves by
/// whole steps (multiplier one thousand).
pub open spec fn spec_multiplier(elapsed_us: int) -> int {
    elapsed_us / 4
}

/// Whether a paddle accepts the held key: `up` wins over `down`; moving up
/// needs the paddle's top at or below the top border, moving down needs the
/// paddle's scaled bottom edge within the window height.
pub open spec fn spec_paddle_moves(p: PaddleV, up: bool, down: bool, sh: int) -> bool {
    if up {
        p.y >= 0
    } else if down {
        (p.y + p.height) * sh <= (BASE_HEIGHT as int) * sh
    } else {
        false
    }
}

/// The paddle after one tick of input: two pixels per multiplier unit in the
/// accepted direction, otherwise unchanged.
pub open spec fn spec_move_paddle(p: PaddleV, up: bool, down: bool, sh: int, m: int) -> PaddleV {
    if spec_paddle_moves(p, up, down, sh) {
        if up {
            PaddleV { x: p.x, y: p.y - 2 * m, width: p.width, height: p.height }
        } else {
            PaddleV { x: p.x, y: p.y + 2 * m, width: p.width, height: p.height }
        }
    } else {
        p
    }
}

/// An accepted movement starts a stopped game toward the top left.
pub open spec fn spec_started(s: PlayState, moved: bool) -> PlayState {
    if moved && s is Stopped {
        PlayState::Running(Direction::TopLeft)
    } else {
        s
    }
}

/// The game after the input step: both paddles moved, and play started by
/// any accepted movement.
pub open spec fn spec_after_input(g: GameV, inputs: Inputs, sh: int, m: int) -> GameV {
    GameV {
        state: spec_started(
            g.state,
            spec_paddle_moves(g.paddle1, inputs.p1_up, inputs.p1_down, sh)
                || spec_paddle_moves(g.paddle2, inputs.p2_up, inputs.p2_down, sh),
        ),
        ball: g.ball,
        paddle1: spec_move_paddle(g.paddle1, inputs.p1_up, inputs.p1_down, sh, m),
        paddle2: spec_move_paddle(g.paddle2, inputs.p2_up, inputs.p2_down, sh, m),
        score: g.score,
    }
}

/// Whether the ball touches the top or bottom border. The bottom test scales
/// the radius by the vertical window ratio; the top test is unscaled.
pub open spec fn spec_hits_border(b: BallV, sh: int) -> bool {
    (BASE_HEIGHT_PX as int) * b.y + b.radius * sh > (BASE_HEIGHT as int) * sh
        || b.y - b.radius < 0
}

/// The ball and state after the movement step: while running, the direction
/// is first reflected vertically if the ball touches the top or bottom
/// border, then the ball advances one pixel per multiplier unit along each
/// axis of the (possibly reflected) diagonal. A stopped ball does not move.
pub open spec fn spec_move_ball(b: BallV, s: PlayState, sh: int, m: int) -> (BallV, PlayState) {
    match s {
        PlayState::Stopped => (b, s),
        PlayState::Running(d) => {
            let d1 = if spec_hits_border(b, sh) {
                d.flipped_vertically()
            } else {
                d
            };
            (
                BallV { x: b.x + d1.step_x() * m, y: b.y + d1.step_y() * m, radius: b.radius },
                PlayState::Running(d1),
            )
        },
    }
}

/// The game after the movement step.
pub open spec fn spec_after_move(g: GameV, sh: int, m: int) -> GameV {
    GameV {
        state: spec_move_ball(g.ball, g.state, sh, m).1,
        ball: spec_move_ball(g.ball, g.state, sh, m).0,
        paddle1: g.paddle1,
        paddle2: g.paddle2,
        score: g.score,
    }
}

/// Whether the ball has left through the right border: its right edge,
/// scaled by the vertical window ratio, is past the window width.
pub open spec fn spec_blue_scores(b: BallV, screen: ScreenV) -> bool {
    (b.x + b.radius) * screen.height > (BASE_HEIGHT as int) * screen.width
}

/// Whether the ball has left through the left border: its left edge at or
/// past zero, unscaled.
pub open spec fn spec_red_scores(b: BallV) -> bool {
    b.x - b.radius <= 0
}

/// The ball back at the center of the logical space, radius kept.
pub open spec fn spec_centered(b: BallV) -> BallV {
    BallV { x: CENTER_X as int, y: CENTER_Y as int, radius: b.radius }
}

/// The game after the scoring step: a ball out through the right border
/// scores for blue, else one out through the left border scores for red;
/// either event stops play and recenters the ball. The right border wins
/// when both tests hold.
pub open spec fn spec_after_score(g: GameV, screen: ScreenV) -> GameV {
    if spec_blue_scores(g.ball, screen) {
        GameV {
            state: PlayState::Stopped,
            ball: spec_centered(g.ball),
            paddle1: g.paddle1,
            paddle2: g.paddle2,
            score: ScoreV { blue: g.score.blue + 1, red: g.score.red },
        }
    } else if spec_red_scores(g.ball) {
        GameV {
            state: PlayState::Stopped,
            ball: spec_centered(g.ball),
            paddle1: g.paddle1,
            paddle2: g.paddle2,
            score: ScoreV { blue: g.score.blue, red: g.score.red + 1 },
        }
    } else {
        g
    }
}

/// Whether the ball touches the first (left) paddle: vertical extents
/// overlap and the ball's center has reached the paddle's right edge.
pub open spec fn spec_paddle1_hit(b: BallV, p: PaddleV) -> bool {
    b.y + b.radius >= p.y && b.y - b.radius <= p.y + p.height && b.x <= p.x + p.width
}

/// Whether the ball touches the second (right) paddle: vertical extents
/// overlap and the ball's center has reached one paddle width left of the
/// paddle's left edge.
pub open spec fn spec_paddle2_hit(b: BallV, p: PaddleV) -> bool {
    b.y + b.radius >= p.y && b.y - b.radius <= p.y + p.height && b.x >= p.x - p.width
}

/// The design invariant of the first paddle's collision: a ball touching it
/// must be in play and moving left. A tick is defined only where this holds.
pub open spec fn spec_paddle1_ok(g: GameV) -> bool {
    spec_paddle1_hit(g.ball, g.paddle1) ==> (g.state matches PlayState::Running(d)
        && d.moving_left())
}

/// The design invariant of the second paddle's collision: a ball touching it
/// must be in play and moving right.
pub open spec fn spec_paddle2_ok(g: GameV) -> bool {
    spec_paddle2_hit(g.ball, g.paddle2) ==> (g.state matches PlayState::Running(d)
        && !d.moving_left())
}

/// The game after the first paddle's collision step: contact with a ball in
/// play moving left inverts the horizontal component.
pub open spec fn spec_after_paddle1(g: GameV) -> GameV {
    if spec_paddle1_hit(g.ball, g.paddle1) {
        match g.state {
            PlayState::Running(d) => {
                if d.moving_left() {
                    GameV {
                        state: PlayState::Running(d.flipped_horizontally()),
                        ball: g.ball,
                        paddle1: g.paddle1,
                        paddle2: g.paddle2,
                        score: g.score,
                    }
                } else {
                    g
                }
            },
            PlayState::Stopped => g,
        }
    } else {
        g
    }
}

/// The game after the second paddle's collision step: contact with a ball in
/// play moving right inverts the horizontal component.
pub open spec fn spec_after_paddle2(g: GameV) -> GameV {
    if spec_paddle2_hit(g.ball, g.paddle2) {
        match g.state {
            PlayState::Running(d) => {
                if !d.moving_left() {
                    GameV {
                        state: PlayState::Running(d.flipped_horizontally()),
                        ball: g.ball,
                        paddle1: g.paddle1,
                        paddle2: g.paddle2,
                        score: g.score,
                    }
                } else {
                    g
                }
            },
            PlayState::Stopped => g,
        }
    } else {
        g
    }
}

/// One whole logical update: nothing below the minimum interval; otherwise
/// input, movement, scoring, and the two paddle collisions, in that order.
/// The scoring step runs before the paddle steps, so a ball that both exits
/// a border and touches a paddle in one tick is reset by the score.
pub open spec fn spec_tick(g: GameV, inputs: Inputs, elapsed_us: int, screen: ScreenV) -> GameV {
    if elapsed_us < TICK_INTERVAL_US as int {
        g
    } else {
        let m = spec_multiplier(elapsed_us);
        spec_after_paddle2(
            spec_after_paddle1(
                spec_after_score(
                    spec_after_move(
                        spec_after_input(g, inputs, screen.height, m),
                        screen.height,
                        m,
                    ),
                    screen,
                ),
            ),
        )
    }
}

/// Whether a tick meets the paddle collision design invariants: after the
/// scoring step neither paddle is touched by a ball that is stopped or
/// moving away from it. On other states the resolver's behavior is not
/// defined, and [`Game::tick`] refuses them.
pub open spec fn spec_tick_valid(g: GameV, inputs: Inputs, elapsed_us: int, screen: ScreenV) -> bool {
    elapsed_us >= TICK_INTERVAL_US as int ==> {
        let m = spec_multiplier(elapsed_us);
        let scored = spec_after_score(
            spec_after_move(spec_after_input(g, inputs, screen.height, m), screen.height, m),
            screen,
        );
        spec_paddle1_ok(scored) && spec_paddle2_ok(spec_after_paddle1(scored))
    }
}

/// Exact product of a value that fits in 64 bits and one that fits in 32
/// bits, with a bound wide enough that the scale comparisons of a tick never
/// overflow.
fn mul_wide(a: i128, b: i128) -> (r: i128)
    requires
        -0x8000_0000_0000_0000 <= a <= 0x8000_0000_0000_0000,
        -0x8000_0000 <= b <= 0x8000_0000,
    ensures
        r == a * b,
        -0x4000_0000_0000_0000_0000_0000 <= r <= 0x4000_0000_0000_0000_0000_0000,
{
    proof {
        assert(-0x4000_0000_0000_0000_0000_0000 <= a * b
            <= 0x4000_0000_0000_0000_0000_0000) by (nonlinear_arith)
            requires
                -0x8000_0000_0000_0000 <= a <= 0x8000_0000_0000_0000,
                -0x8000_0000 <= b <= 0x8000_0000,
        ;
    }
    a * b
}

impl Direction {
    /// Inverts the horizontal component, keeping the vertical one.
    pub fn flip_horizontal(self) -> (r: Direction)
        ensures
            r == self.flipped_horizontally(),
    {
        match self {
            Direction::TopLeft => Direction::TopRight,
            Direction::TopRight => Direction::TopLeft,
            Direction::BottomLeft => Direction::BottomRight,
            Direction::BottomRight => Direction::BottomLeft,
        }
    }

    /// Inverts the vertical component, keeping the horizontal one.
    pub fn flip_vertical(self) -> (r: Direction)
        ensures
            r == self.flipped_vertically(),
    {
        match self {
            Direction::TopLeft => Direction::BottomLeft,
            Direction::TopRight => Direction::BottomRight,
            Direction::BottomLeft => Direction::TopLeft,
            Direction::BottomRight => Direction::TopRight,
        }
    }
}

impl Paddle {
    /// Moves the paddle by the held keys: two pixels per multiplier unit up
    /// or down, within the borders. Returns whether a movement was accepted.
    pub fn apply_input(&mut self, up: bool, down: bool, screen_height: i32, m: i64) -> (moved:
        bool)
        requires
            old(self)@.wf(),
            0 <= m <= MULT_LIMIT,
        ensures
            final(self)@ == spec_move_paddle(old(self)@, up, down, screen_height as int, m as int),
            moved == spec_paddle_moves(old(self)@, up, down, screen_height as int),
    {
        if up {
            if self.y >= 0 {
                self.y = self.y - 2 * m;
                true
            } else {
                false
            }
        } else if down {
            let bottom = mul_wide(
                self.y as i128 + self.height as i128,
                screen_height as i128,
            );
            let limit = mul_wide(BASE_HEIGHT as i128, screen_height as i128);
            if bottom <= limit {
                self.y = self.y + 2 * m;
                true
            } else {
                false
            }
        } else {
            false
        }
    }
}

/// Starts a stopped game toward the top left; a running game keeps its
/// direction.
pub fn change_game_state(state: &mut PlayState)
    ensures
        *final(state) == spec_started(*old(state), true),
{
    match *state {
        PlayState::Running(_) => {},
        PlayState::Stopped => {
            *state = PlayState::Running(Direction::TopLeft);
        },
    }
}

/// Puts the ball back at the center of the logical space.
pub fn ball_set_default_pos(ball: &mut Ball)
    ensures
        final(ball)@ == spec_centered(old(ball)@),
{
    ball.x = CENTER_X;
    ball.y = CENTER_Y;
}

/// Whether the ball touches the top or bottom border of the window.
pub fn ball_hits_horizontal_border(ball: &Ball, screen_height: i32) -> (r: bool)
    ensures
        r == spec_hits_border(ball@, screen_height as int),
{
    let scaled_y = mul_wide(ball.y as i128, BASE_HEIGHT_PX as i128);
    let scaled_radius = mul_wide(ball.radius as i128, screen_height as i128);
    let bottom_limit = mul_wide(BASE_HEIGHT as i128, screen_height as i128);
    scaled_y + scaled_radius > bottom_limit || (ball.y as i128) - (ball.radius as i128) < 0
}

/// Whether the ball has left through the right border.
pub fn ball_exits_right(ball: &Ball, screen: Screen) -> (r: bool)
    requires
        -0x8000_0000_0000_0000 <= ball@.x + ball@.radius <= 0x8000_0000_0000_0000,
    ensures
        r == spec_blue_scores(ball@, screen@),
{
    let edge = mul_wide(ball.x as i128 + ball.radius as i128, screen.height as i128);
    let limit = mul_wide(BASE_HEIGHT as i128, screen.width as i128);
    edge > limit
}

/// Whether the ball has left through the left border.
pub fn ball_exits_left(ball: &Ball) -> (r: bool)
    ensures
        r == spec_red_scores(ball@),
{
    (ball.x as i128) - (ball.radius as i128) <= 0
}

/// Whether the ball touches the first (left) paddle.
pub fn paddle1_hit(ball: &Ball, paddle: &Paddle) -> (r: bool)
    ensures
        r == spec_paddle1_hit(ball@, paddle@),
{
    (ball.y as i128) + (ball.radius as i128) >= paddle.y as i128
        && (ball.y as i128) - (ball.radius as i128) <= (paddle.y as i128) + (paddle.height as i128)
        && (ball.x as i128) <= (paddle.x as i128) + (paddle.width as i128)
}

/// Whether the ball touches the second (right) paddle.
pub fn paddle2_hit(ball: &Ball, paddle: &Paddle) -> (r: bool)
    ensures
        r == spec_paddle2_hit(ball@, paddle@),
{
    (ball.y as i128) + (ball.radius as i128) >= paddle.y as i128
        && (ball.y as i128) - (ball.radius as i128) <= (paddle.y as i128) + (paddle.height as i128)
        && (ball.x as i128) >= (paddle.x as i128) - (paddle.width as i128)
}

/// Advances the ball one step along its diagonal, reflecting it vertically
/// first if it touches the top or bottom border. A stopped ball stays put.
pub fn move_ball(ball: &mut Ball, state: &mut PlayState, screen_height: i32, m: i64)
    requires
        old(ball)@.wf(),
        0 <= m <= MULT_LIMIT,
    ensures
        final(ball)@ == spec_move_ball(old(ball)@, *old(state), screen_height as int, m as int).0,
        *final(state) == spec_move_ball(old(ball)@, *old(state), screen_height as int, m as int).1,
{
    match *state {
        PlayState::Stopped => {},
        PlayState::Running(d) => {
            let d1 = if ball_hits_horizontal_border(ball, screen_height) {
                d.flip_vertical()
            } else {
                d
            };
            *state = PlayState::Running(d1);
            match d1 {
                Direction::TopLeft => {
                    ball.x = ball.x - m;
                    ball.y = ball.y - m;
                },
                Direction::TopRight => {
                    ball.x = ball.x + m;
                    ball.y = ball.y - m;
                },
                Direction::BottomLeft => {
                    ball.x = ball.x - m;
                    ball.y = ball.y + m;
                },
                Direction::BottomRight => {
                    ball.x = ball.x + m;
                    ball.y = ball.y + m;
                },
            }
        },
    }
}

/// The starting state: paddles five pixels wide and fifty tall near the left
/// and right borders, the ball at the center with a ten pixel radius, both
/// scores zero, play stopped.
pub open spec fn spec_initial_game() -> GameV {
    GameV {
        state: PlayState::Stopped,
        ball: BallV { x: 640_000, y: 360_000, radius: 10_000 },
        paddle1: PaddleV { x: 10_000, y: 355_000, width: 5_000, height: 50_000 },
        paddle2: PaddleV { x: 1_270_000, y: 355_000, width: 5_000, height: 50_000 },
        score: ScoreV { blue: 0, red: 0 },
    }
}

impl Game {
    /// A fresh game in the starting state.
    pub fn new() -> (g: Game)
        ensures
            g@ == spec_initial_game(),
            g@.wf(),
    {
        Game {
            state: PlayState::Stopped,
            ball: Ball { x: 640_000, y: 360_000, radius: 10_000 },
            paddle1: Paddle { x: 10_000, y: 355_000, width: 5_000, height: 50_000 },
            paddle2: Paddle { x: 1_270_000, y: 355_000, width: 5_000, height: 50_000 },
            score: Score { blue: 0, red: 0 },
        }
    }

    /// Whether a tick accepts this state: every coordinate within
    /// `COORD_LIMIT` and headroom left in both score counters.
    pub fn is_well_formed(&self) -> (r: bool)
        ensures
            r == self@.wf(),
    {
        -COORD_LIMIT <= self.ball.x && self.ball.x <= COORD_LIMIT
            && -COORD_LIMIT <= self.ball.y && self.ball.y <= COORD_LIMIT
            && -COORD_LIMIT <= self.ball.radius && self.ball.radius <= COORD_LIMIT
            && -COORD_LIMIT <= self.paddle1.x && self.paddle1.x <= COORD_LIMIT
            && -COORD_LIMIT <= self.paddle1.y && self.paddle1.y <= COORD_LIMIT
            && -COORD_LIMIT <= self.paddle1.width && self.paddle1.width <= COORD_LIMIT
            && -COORD_LIMIT <= self.paddle1.height && self.paddle1.height <= COORD_LIMIT
            && -COORD_LIMIT <= self.paddle2.x && self.paddle2.x <= COORD_LIMIT
            && -COORD_LIMIT <= self.paddle2.y && self.paddle2.y <= COORD_LIMIT
            && -COORD_LIMIT <= self.paddle2.width && self.paddle2.width <= COORD_LIMIT
            && -COORD_LIMIT <= self.paddle2.height && self.paddle2.height <= COORD_LIMIT
            && self.score.blue < u64::MAX && self.score.red < u64::MAX
    }

    /// One logical update, total over well-formed states: performs the tick
    /// and returns `true`, unless the tick would touch a paddle with a ball
    /// that is stopped or moving away from it — the one region the resolver
    /// leaves undefined — in which case it changes nothing and returns
    /// `false`.
    pub fn try_tick(&mut self, inputs: Inputs, elapsed_us: u64, screen: Screen) -> (ok: bool)
        requires
            old(self)@.wf(),
            elapsed_us <= ELAPSED_LIMIT,
        ensures
            ok == spec_tick_valid(old(self)@, inputs, elapsed_us as int, screen@),
            ok ==> final(self)@ == spec_tick(old(self)@, inputs, elapsed_us as int, screen@),
            !ok ==> *final(self) == *old(self),
    {
        if elapsed_us < TICK_INTERVAL_US {
            return true;
        }
        let m: i64 = (elapsed_us / 4) as i64;
        let ghost m_spec = spec_multiplier(elapsed_us as int);
        proof {
            assert(m as int == m_spec);
        }
        let mut g = *self;

        // Input step: both paddles, and any accepted movement starts play.
        let moved1 = g.paddle1.apply_input(inputs.p1_up, inputs.p1_down, screen.height, m);
        if moved1 {
            change_game_state(&mut g.state);
        }
        let moved2 = g.paddle2.apply_input(inputs.p2_up, inputs.p2_down, screen.height, m);
        if moved2 {
            change_game_state(&mut g.state);
        }
        let ghost g_input = spec_after_input(old(self)@, inputs, screen@.height, m_spec);
        proof {
            assert(g@ == g_input);
        }

        // Movement step.
        move_ball(&mut g.ball, &mut g.state, screen.height, m);
        let ghost g_moved = spec_after_move(g_input, screen@.height, m_spec);
        proof {
            assert(g@ == g_moved);
        }

        // Scoring step, on the moved position.
        if ball_exits_right(&g.ball, screen) {
            g.score.blue = g.score.blue + 1;
            g.state = PlayState::Stopped;
            ball_set_default_pos(&mut g.ball);
        } else if ball_exits_left(&g.ball) {
            g.score.red = g.score.red + 1;
            g.state = PlayState::Stopped;
            ball_set_default_pos(&mut g.ball);
        }
        let ghost g_scored = spec_after_score(g_moved, screen@);
        proof {
            assert(g@ == g_scored);
        }

        // First paddle's collision, on the position the scoring step left.
        if paddle1_hit(&g.ball, &g.paddle1) {
            match g.state {
                PlayState::Running(Direction::TopLeft) => {
                    g.state = PlayState::Running(Direction::TopRight);
                },
                PlayState::Running(Direction::BottomLeft) => {
                    g.state = PlayState::Running(Direction::BottomRight);
                },
                _ => {
                    return false;
                },
            }
        }
        let ghost g_p1 = spec_after_paddle1(g_scored);
        proof {
            assert(g@ == g_p1);
        }

        // Second paddle's collision.
        if paddle2_hit(&g.ball, &g.paddle2) {
            match g.state {
                PlayState::Running(Direction::TopRight) => {
                    g.state = PlayState::Running(Direction::TopLeft);
                },
                PlayState::Running(Direction::BottomRight) => {
                    g.state = PlayState::Running(Direction::BottomLeft);
                },
                _ => {
                    return false;
                },
            }
        }
        proof {
            assert(g@ == spec_after_paddle2(g_p1));
        }

        *self = g;
        true
    }

    /// One logical update of the resolver, on a tick that meets the paddle
    /// collision design invariants ([`spec_tick_valid`]; checked at run time
    /// by [`Game::try_tick`]).
    pub fn tick(&mut self, inputs: Inputs, elapsed_us: u64, screen: Screen)
        requires
            old(self)@.wf(),
            elapsed_us <= ELAPSED_LIMIT,
            spec_tick_valid(old(self)@, inputs, elapsed_us as int, screen@),
        ensures
            final(self)@ == spec_tick(old(self)@, inputs, elapsed_us as int, screen@),
    {
        let _ok = self.try_tick(inputs, elapsed_us, screen);
    }
}

} // verus!
