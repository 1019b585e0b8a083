//! Proved laws of the resolver: statements that relate several steps of
//! [`crate::game::spec_tick`], beyond the contracts of the single functions.

use vstd::prelude::*;
use crate::game::CENTER_X;
use crate::game::CENTER_Y;
use crate::game::Direction;
use crate::game::GameV;
use crate::game::Inputs;
use crate::game::PlayState;
use crate::game::ScreenV;
use crate::game::TICK_INTERVAL_US;
use crate::game::spec_after_input;
use crate::game::spec_after_move;
use crate::game::spec_after_paddle1;
use crate::game::spec_after_paddle2;
use crate::game::spec_after_score;
use crate::game::spec_blue_scores;
use crate::game::spec_multiplier;
use crate::game::spec_paddle1_hit;
use crate::game::spec_paddle1_ok;
use crate::game::spec_paddle2_hit;
use crate::game::spec_paddle2_ok;
use crate::game::spec_paddle_moves;
use crate::game::spec_red_scores;
use crate::game::spec_tick;
use crate::game::spec_tick_valid;

verus! {

/// A tick on a stopped game with no movement key held changes nothing, as
/// long as the resting ball is not already out past a side border (a ball
/// left beyond a border is scored and recentered by any tick).
pub proof fn lemma_stopped_tick_is_idle(g: GameV, inputs: Inputs, elapsed_us: int, screen: ScreenV)
    requires
        g.state is Stopped,
        !inputs.p1_up && !inputs.p1_down && !inputs.p2_up && !inputs.p2_down,
        !spec_blue_scores(g.ball, screen),
        !spec_red_scores(g.ball),
    ensures
        spec_tick(g, inputs, elapsed_us, screen) == g,
{
}

/// A paddle movement accepted while the game is stopped starts the ball
/// toward the top left.
pub proof fn lemma_first_move_starts_top_left(g: GameV, inputs: Inputs, sh: int, m: int)
    requires
        g.state is Stopped,
        spec_paddle_moves(g.paddle1, inputs.p1_up, inputs.p1_down, sh) || spec_paddle_moves(
            g.paddle2,
            inputs.p2_up,
            inputs.p2_down,
            sh,
        ),
    ensures
        spec_after_input(g, inputs, sh, m).state == PlayState::Running(Direction::TopLeft),
{
}

/// While running, the ball's direction is one of the four diagonals; the
/// type admits no other value.
pub proof fn lemma_direction_is_diagonal(d: Direction)
    ensures
        d == Direction::TopLeft || d == Direction::TopRight || d == Direction::BottomLeft
            || d == Direction::BottomRight,
{
}

/// A tick whose moved ball is out past the right border increments the blue
/// score by exactly one, leaves the red score alone, recenters the ball, and
/// stops play.
pub proof fn lemma_right_exit_scores_blue(g: GameV, inputs: Inputs, elapsed_us: int, screen: ScreenV)
    requires
        spec_tick_valid(g, inputs, elapsed_us, screen),
        elapsed_us >= TICK_INTERVAL_US as int,
        spec_blue_scores(
            spec_after_move(
                spec_after_input(g, inputs, screen.height, spec_multiplier(elapsed_us)),
                screen.height,
                spec_multiplier(elapsed_us),
            ).ball,
            screen,
        ),
    ensures
        spec_tick(g, inputs, elapsed_us, screen).score.blue == g.score.blue + 1,
        spec_tick(g, inputs, elapsed_us, screen).score.red == g.score.red,
        spec_tick(g, inputs, elapsed_us, screen).ball.x == CENTER_X as int,
        spec_tick(g, inputs, elapsed_us, screen).ball.y == CENTER_Y as int,
        spec_tick(g, inputs, elapsed_us, screen).state is Stopped,
{
    let m = spec_multiplier(elapsed_us);
    let moved = spec_after_move(spec_after_input(g, inputs, screen.height, m), screen.height, m);
    let scored = spec_after_score(moved, screen);
    assert(scored.state is Stopped);
    assert(!spec_paddle1_hit(scored.ball, scored.paddle1));
    assert(spec_after_paddle1(scored) == scored);
    assert(!spec_paddle2_hit(scored.ball, scored.paddle2));
    assert(spec_after_paddle2(scored) == scored);
}

/// A tick whose moved ball is out past the left border (and not past the
/// right one, which wins) increments the red score by exactly one, leaves the
/// blue score alone, recenters the ball, and stops play.
pub proof fn lemma_left_exit_scores_red(g: GameV, inputs: Inputs, elapsed_us: int, screen: ScreenV)
    requires
        spec_tick_valid(g, inputs, elapsed_us, screen),
        elapsed_us >= TICK_INTERVAL_US as int,
        !spec_blue_scores(
            spec_after_move(
                spec_after_input(g, inputs, screen.height, spec_multiplier(elapsed_us)),
                screen.height,
                spec_multiplier(elapsed_us),
            ).ball,
            screen,
        ),
        spec_red_scores(
            spec_after_move(
                spec_after_input(g, inputs, screen.height, spec_multiplier(elapsed_us)),
                screen.height,
                spec_multiplier(elapsed_us),
            ).ball,
        ),
    ensures
        spec_tick(g, inputs, elapsed_us, screen).score.red == g.score.red + 1,
        spec_tick(g, inputs, elapsed_us, screen).score.blue == g.score.blue,
        spec_tick(g, inputs, elapsed_us, screen).ball.x == CENTER_X as int,
        spec_tick(g, inputs, elapsed_us, screen).ball.y == CENTER_Y as int,
        spec_tick(g, inputs, elapsed_us, screen).state is Stopped,
{
    let m = spec_multiplier(elapsed_us);
    let moved = spec_after_move(spec_after_input(g, inputs, screen.height, m), screen.height, m);
    let scored = spec_after_score(moved, screen);
    assert(scored.state is Stopped);
    assert(!spec_paddle1_hit(scored.ball, scored.paddle1));
    assert(spec_after_paddle1(scored) == scored);
    assert(!spec_paddle2_hit(scored.ball, scored.paddle2));
    assert(spec_after_paddle2(scored) == scored);
}

/// Flipping the direction horizontally inverts exactly the horizontal
/// component and keeps the vertical one.
pub proof fn lemma_flip_horizontal_exact(d: Direction)
    ensures
        d.flipped_horizontally().moving_left() == !d.moving_left(),
        d.flipped_horizontally().moving_up() == d.moving_up(),
{
}

/// Flipping the direction vertically inverts exactly the vertical component
/// and keeps the horizontal one.
pub proof fn lemma_flip_vertical_exact(d: Direction)
    ensures
        d.flipped_vertically().moving_up() == !d.moving_up(),
        d.flipped_vertically().moving_left() == d.moving_left(),
{
}

/// Contact with the first paddle by a ball in play moving left inverts
/// exactly the horizontal component of the direction and changes nothing
/// else of the game.
pub proof fn lemma_paddle1_collision_flips_horizontal(g: GameV, d: Direction)
    requires
        spec_paddle1_hit(g.ball, g.paddle1),
        g.state == PlayState::Running(d),
        d.moving_left(),
    ensures
        spec_after_paddle1(g) == (GameV {
            state: PlayState::Running(d.flipped_horizontally()),
            ..g
        }),
        d.flipped_horizontally().moving_up() == d.moving_up(),
{
}

/// Contact with the second paddle by a ball in play moving right inverts
/// exactly the horizontal component of the direction and changes nothing
/// else of the game.
pub proof fn lemma_paddle2_collision_flips_horizontal(g: GameV, d: Direction)
    requires
        spec_paddle2_hit(g.ball, g.paddle2),
        g.state == PlayState::Running(d),
        !d.moving_left(),
    ensures
        spec_after_paddle2(g) == (GameV {
            state: PlayState::Running(d.flipped_horizontally()),
            ..g
        }),
        d.flipped_horizontally().moving_up() == d.moving_up(),
{
}

/// A tick that is given no paddle contact to resolve is defined: the design
/// invariants hold vacuously.
pub proof fn lemma_no_contact_tick_is_valid(g: GameV, inputs: Inputs, elapsed_us: int, screen: ScreenV)
    requires
        elapsed_us >= TICK_INTERVAL_US as int ==> {
            let m = spec_multiplier(elapsed_us);
            let scored = spec_after_score(
                spec_after_move(
                    spec_after_input(g, inputs, screen.height, m),
                    screen.height,
                    m,
                ),
                screen,
            );
            !spec_paddle1_hit(scored.ball, scored.paddle1) && !spec_paddle2_hit(
                scored.ball,
                scored.paddle2,
            )
        },
    ensures
        spec_tick_valid(g, inputs, elapsed_us, screen),
{
    if elapsed_us >= TICK_INTERVAL_US as int {
        let m = spec_multiplier(elapsed_us);
        let scored = spec_after_score(
            spec_after_move(spec_after_input(g, inputs, screen.height, m), screen.height, m),
            screen,
        );
        assert(spec_paddle1_ok(scored));
        assert(spec_after_paddle1(scored) == scored);
        assert(spec_paddle2_ok(spec_after_paddle1(scored)));
    }
}

} // verus!

