//! A verified core for a two-player paddle game, plus a small element-wise
//! vector addition.
//!
//! The [`game`] module holds the ball motion and collision resolver: paddle
//! input, diagonal ball movement, border reflection, scoring, and paddle
//! collision, each step specified against an integer model of the logical
//! 1280 by 720 coordinate space. The [`laws`] module states and proves the
//! properties that relate those steps.

pub mod elementwise;
pub mod game;
pub mod laws;
