//! Analog inputs: single axes with a dead zone, pairs of them, and the
//! composites that emulate axes with buttons.

use vstd::prelude::*;
use bevy::input::gamepad::GamepadAxisType;
use crate::user_input::InputKind;

verus! {

/// An axis of the mouse wheel.
#[derive(Clone, Copy, Debug, PartialEq, Eq, Hash)]
pub enum MouseWheelAxisType {
    /// Horizontal scrolling.
    X,
    /// Vertical scrolling.
    Y,
}

/// An axis of mouse motion.
#[derive(Clone, Copy, Debug, PartialEq, Eq, Hash)]
pub enum MouseMotionAxisType {
    /// Horizontal movement.
    X,
    /// Vertical movement.
    Y,
}

/// The source of a single axis.
#[derive(Clone, Copy, Debug, PartialEq, Eq, Hash)]
pub enum AxisType {
    /// An axis of a gamepad.
    Gamepad(GamepadAxisType),
    /// The accumulated movement of the mouse wheel.
    MouseWheel(MouseWheelAxisType),
    /// The accumulated movement of the mouse.
    MouseMotion(MouseMotionAxisType),
}

/// One analog source with its dead zone `[negative_low, positive_low]`.
/// Readings inside the dead zone count as no input.
///
/// The thresholds are taken as given.  Where `negative_low` exceeds
/// `positive_low` the dead zone is empty: every reading is its own value and
/// the axis always counts as pressed.
#[derive(Clone, Copy, Debug, PartialEq, Eq, Hash)]
pub struct SingleAxis {
    /// Where the reading comes from.
    pub axis_type: AxisType,
    /// The upper end of the dead zone, a scalar.
    pub positive_low: i64,
    /// The lower end of the dead zone, a scalar.
    pub negative_low: i64,
}

/// Two single axes read as one two-dimensional input.
#[derive(Clone, Copy, Debug, PartialEq, Eq, Hash)]
pub struct DualAxis {
    /// The horizontal axis.
    pub x: SingleAxis,
    /// The vertical axis.
    pub y: SingleAxis,
}

/// Four buttons read as one two-dimensional input.
#[derive(Clone, Copy, Debug, PartialEq, Eq, Hash)]
pub struct VirtualDPad {
    /// The input that points up.
    pub up: InputKind,
    /// The input that points down.
    pub down: InputKind,
    /// The input that points left.
    pub left: InputKind,
    /// The input that points right.
    pub right: InputKind,
}

/// Two buttons read as one axis.
#[derive(Clone, Copy, Debug, PartialEq, Eq, Hash)]
pub struct VirtualAxis {
    /// The input that pulls the axis down.
    pub negative: InputKind,
    /// The input that pulls the axis up.
    pub positive: InputKind,
}

/// A two-dimensional value, as two scalars.
#[derive(Clone, Copy, Debug, PartialEq, Eq, Hash)]
pub struct DualAxisData {
    x: i64,
    y: i64,
}

impl SingleAxis {
    /// Whether `value` lies outside the dead zone.
    pub open spec fn outside_dead_zone(self, value: int) -> bool {
        value < self.negative_low || value > self.positive_low
    }

    /// What a raw reading counts for: zero inside the dead zone, itself
    /// outside of it.
    pub open spec fn filtered(self, value: int) -> int {
        if self.negative_low <= value <= self.positive_low {
            0
        } else {
            value
        }
    }

    /// Whether `value` lies outside the dead zone.
    pub fn is_outside_dead_zone(&self, value: i64) -> (r: bool)
        ensures
            r == self.outside_dead_zone(value as int),
    {
        value < self.negative_low || value > self.positive_low
    }

    /// Applies the dead zone to a raw reading.
    pub fn value_in_axis_range(&self, value: i64) -> (r: i64)
        ensures
            r == self.filtered(value as int),
    {
        if value >= self.negative_low && value <= self.positive_low {
            0
        } else {
            value
        }
    }
}

impl DualAxisData {
    /// The value as a pair of mathematical integers.
    pub closed spec fn view(&self) -> (int, int) {
        (self.x as int, self.y as int)
    }

    /// The two-dimensional value `(x, y)`.
    pub fn new(x: i64, y: i64) -> (r: DualAxisData)
        ensures
            r@ == (x as int, y as int),
    {
        DualAxisData { x, y }
    }

    /// The horizontal component.
    pub fn x(&self) -> (r: i64)
        ensures
            r == self@.0,
    {
        self.x
    }

    /// The vertical component.
    pub fn y(&self) -> (r: i64)
        ensures
            r == self@.1,
    {
        self.y
    }
}

} // verus!
