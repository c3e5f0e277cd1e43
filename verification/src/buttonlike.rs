//! Directions of continuous mouse input, read as buttons.

use vstd::prelude::*;

verus! {

/// A direction of the mouse wheel.
#[derive(Clone, Copy, Debug, PartialEq, Eq, Hash)]
pub enum MouseWheelDirection {
    /// Scrolling up.
    Up,
    /// Scrolling down.
    Down,
    /// Scrolling right.
    Right,
    /// Scrolling left.
    Left,
}

/// A direction of mouse motion.
#[derive(Clone, Copy, Debug, PartialEq, Eq, Hash)]
pub enum MouseMotionDirection {
    /// Moving up.
    Up,
    /// Moving down.
    Down,
    /// Moving right.
    Right,
    /// Moving left.
    Left,
}

/// Whether a total `(x, y)` points in a direction given by its axis and sign:
/// strictly positive for up and right, strictly negative for down and left.
pub open spec fn points(total: (int, int), vertical: bool, positive: bool) -> bool {
    let component = if vertical { total.1 } else { total.0 };
    if positive {
        component > 0
    } else {
        component < 0
    }
}

impl MouseWheelDirection {
    /// Whether the direction lies on the vertical axis.
    pub open spec fn vertical(self) -> bool {
        self is Up || self is Down
    }

    /// Whether the direction is the positive one of its axis.
    pub open spec fn positive(self) -> bool {
        self is Up || self is Right
    }

    /// Whether a wheel total points in this direction.
    pub fn matches_total(self, total: (i64, i64)) -> (r: bool)
        ensures
            r == points((total.0 as int, total.1 as int), self.vertical(), self.positive()),
    {
        match self {
            MouseWheelDirection::Up => total.1 > 0,
            MouseWheelDirection::Down => total.1 < 0,
            MouseWheelDirection::Right => total.0 > 0,
            MouseWheelDirection::Left => total.0 < 0,
        }
    }
}

impl MouseMotionDirection {
    /// Whether the direction lies on the vertical axis.
    pub open spec fn vertical(self) -> bool {
        self is Up || self is Down
    }

    /// Whether the direction is the positive one of its axis.
    pub open spec fn positive(self) -> bool {
        self is Up || self is Right
    }

    /// Whether a motion total points in this direction.
    pub fn matches_total(self, total: (i64, i64)) -> (r: bool)
        ensures
            r == points((total.0 as int, total.1 as int), self.vertical(), self.positive()),
    {
        match self {
            MouseMotionDirection::Up => total.1 > 0,
            MouseMotionDirection::Down => total.1 < 0,
            MouseMotionDirection::Right => total.0 > 0,
            MouseMotionDirection::Left => total.0 < 0,
        }
    }
}

} // verus!
