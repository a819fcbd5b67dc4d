//! The four facing directions and the keys that steer the game.
use vstd::prelude::*;

verus! {

/// The direction a rectangle faces, and moves in when it runs by itself.
#[derive(Clone, Copy, Debug, PartialEq, Eq, Structural)]
pub enum Direction {
    Up,
    Down,
    Left,
    Right,
}

/// A key of the keyboard, as far as the game tells keys apart.
#[derive(Clone, Copy, Debug, PartialEq, Eq, Structural)]
pub enum Key {
    W,
    S,
    Up,
    Down,
    Left,
    Right,
    /// Any key that the game does not react to.
    Other,
}

impl Direction {
    /// The opposite direction.
    pub open spec fn inverse_spec(self) -> Direction {
        match self {
            Direction::Up => Direction::Down,
            Direction::Down => Direction::Up,
            Direction::Left => Direction::Right,
            Direction::Right => Direction::Left,
        }
    }

    /// The direction that an arrow key names, if `key` is an arrow key.
    pub open spec fn from_keycode_spec(key: Key) -> Option<Direction> {
        match key {
            Key::Up => Some(Direction::Up),
            Key::Down => Some(Direction::Down),
            Key::Left => Some(Direction::Left),
            Key::Right => Some(Direction::Right),
            _ => None,
        }
    }

    /// Whether the direction runs along the horizontal axis.
    pub open spec fn is_horizontal(self) -> bool {
        self == Direction::Left || self == Direction::Right
    }

    /// Turns the direction around: up and down swap, left and right swap.
    pub fn inverse(&self) -> (r: Direction)
        ensures
            r == self.inverse_spec(),
    {
        match *self {
            Direction::Up => Direction::Down,
            Direction::Down => Direction::Up,
            Direction::Left => Direction::Right,
            Direction::Right => Direction::Left,
        }
    }

    /// Maps an arrow key to the direction it points in; every other key
    /// maps to `None`.
    pub fn from_keycode(key: Key) -> (r: Option<Direction>)
        ensures
            r == Direction::from_keycode_spec(key),
    {
        match key {
            Key::Up => Some(Direction::Up),
            Key::Down => Some(Direction::Down),
            Key::Left => Some(Direction::Left),
            Key::Right => Some(Direction::Right),
            _ => None,
        }
    }

    /// Turning around twice gives the direction back, and turning around
    /// once never does.
    pub proof fn lemma_inverse_involution(self)
        ensures
            self.inverse_spec().inverse_spec() == self,
            self.inverse_spec() != self,
    {
    }

    /// Turning around stays on the axis: a horizontal direction stays
    /// horizontal and a vertical one stays vertical.
    pub proof fn lemma_inverse_keeps_axis(self)
        ensures
            self.inverse_spec().is_horizontal() == self.is_horizontal(),
    {
    }
}

} // verus!
