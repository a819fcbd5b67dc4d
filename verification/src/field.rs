//! The playing field: its unit of length and the fixed measures of the game.
use vstd::prelude::*;

verus! {

/// Subpixels in one pixel. Every length and position of the simulation is
/// a whole number of subpixels.
pub const UNIT: i64 = 1024;

/// Width of the field.
pub const SCREEN_WIDTH: i64 = 800 * UNIT;

/// Height of the field.
pub const SCREEN_HEIGHT: i64 = 600 * UNIT;

/// Width of a paddle.
pub const PADDLE_WIDTH: i64 = 25 * UNIT;

/// Height of a paddle.
pub const PADDLE_HEIGHT: i64 = 150 * UNIT;

/// Distance a paddle moves per key press and frame.
pub const PADDLE_SPEED: i64 = 7 * UNIT;

/// Horizontal position of the left paddle: half a paddle width off the
/// left edge.
pub const PADDLE_LEFT_X: i64 = 12_800;

/// Horizontal position of the right paddle: one and a half paddle widths
/// off the right edge.
pub const PADDLE_RIGHT_X: i64 = SCREEN_WIDTH - 38_400;

/// Width and height of the ball.
pub const BALL_SIZE: i64 = 20 * UNIT;

/// Distance the ball moves per frame in the direction it faces.
pub const BALL_SPEED: i64 = 6 * UNIT;

/// Horizontal position of the center of the field, where the ball starts.
pub const CENTER_X: i64 = 400 * UNIT;

/// Vertical position of the center of the field, where the ball starts.
pub const CENTER_Y: i64 = 300 * UNIT;

/// Bound of the ball's vertical drift per frame: a fresh drift lies in
/// `-MAX_DEVIATION <= d < MAX_DEVIATION`.
pub const MAX_DEVIATION: i64 = 3 * UNIT;

/// The named positions lie where their descriptions say: the center at
/// half the field's width and height, the left paddle half a paddle width
/// off the left edge, the right paddle one and a half paddle widths off
/// the right edge.
pub proof fn lemma_named_positions()
    ensures
        2 * CENTER_X == SCREEN_WIDTH,
        2 * CENTER_Y == SCREEN_HEIGHT,
        2 * PADDLE_LEFT_X == PADDLE_WIDTH,
        2 * PADDLE_RIGHT_X == 2 * SCREEN_WIDTH - 3 * PADDLE_WIDTH,
{
}

} // verus!
