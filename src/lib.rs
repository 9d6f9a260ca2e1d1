use vstd::prelude::*;

pub mod frame;
pub mod input;
pub mod model;

use crate::input::{key_direction, Key};

verus! {

/// One of the four directions a held key can steer towards.
#[derive(Clone, Copy, Debug, PartialEq, Eq, Structural)]
pub enum Direction {
    Up,
    Down,
    Left,
    Right,
}

impl Direction {
    /// The unit step of this direction as `(x, y)`. Vertical steps follow
    /// the y axis; horizontal ones are mirrored, Left along +x and Right
    /// along -x.
    pub open spec fn unit(self) -> (int, int) {
        match self {
            Direction::Up => (0, 1),
            Direction::Down => (0, -1),
            Direction::Left => (1, 0),
            Direction::Right => (-1, 0),
        }
    }

    /// The direction that `keycode` steers towards: W and Up, S and Down,
    /// A and Left, D and Right; no direction for any other key.
    pub fn from_virtual_keycode(keycode: &Key) -> (r: Option<Direction>)
        ensures
            r == key_direction(*keycode),
    {
        match keycode {
            Key::W | Key::Up => Some(Direction::Up),
            Key::S | Key::Down => Some(Direction::Down),
            Key::A | Key::Left => Some(Direction::Left),
            Key::D | Key::Right => Some(Direction::Right),
            _ => None,
        }
    }

    /// The unit step of this direction, as integer components.
    pub fn to_vec2(&self) -> (r: (i32, i32))
        ensures
            (r.0 as int, r.1 as int) == self.unit(),
    {
        match self {
            Direction::Up => (0, 1),
            Direction::Down => (0, -1),
            Direction::Left => (1, 0),
            Direction::Right => (-1, 0),
        }
    }
}

} // verus!
