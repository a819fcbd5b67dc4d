//! A verified simulation core for a two-player paddle-and-ball game.
//!
//! Every length and position is an integer number of subpixels
//! ([`field::UNIT`] subpixels make one pixel), so that each step of the
//! simulation is exact and its outcome can be stated and proved.
pub mod direction;
pub mod field;
pub mod game;
mod random;
pub mod rectangle;
pub mod text;

pub use direction::{Direction, Key};
pub use game::{Frame, GameState, GameView, Label};
pub use rectangle::{DrawCommand, Rectangle, RectangleView};
