//! The vocabulary of abstract inputs.

use vstd::prelude::*;
use bevy::input::gamepad::GamepadButtonType;
use bevy::input::keyboard::{KeyCode, ScanCode};
use bevy::input::mouse::MouseButton;
use petitset::PetitSet;
use crate::axislike::{DualAxis, SingleAxis, VirtualAxis, VirtualDPad};
use crate::devices::chord_members;
use crate::buttonlike::{MouseMotionDirection, MouseWheelDirection};

verus! {

/// A key that exists twice on a keyboard, once on each side.
#[derive(Clone, Copy, Debug, PartialEq, Eq, Hash)]
pub enum Modifier {
    /// Either alt key.
    Alt,
    /// Either control key.
    Control,
    /// Either shift key.
    Shift,
    /// Either windows or command key.
    Win,
}

/// One atomic input.
#[derive(Clone, Copy, Debug, PartialEq, Eq, Hash)]
pub enum InputKind {
    /// A button of a gamepad.
    GamepadButton(GamepadButtonType),
    /// One analog axis.
    SingleAxis(SingleAxis),
    /// Two analog axes read together.
    DualAxis(DualAxis),
    /// A key, by what it means.
    Keyboard(KeyCode),
    /// A key, by where it sits.
    KeyLocation(ScanCode),
    /// A key that either of two keys stands for.
    Modifier(Modifier),
    /// A button of the mouse.
    Mouse(MouseButton),
    /// The mouse wheel, turned in a direction.
    MouseWheel(MouseWheelDirection),
    /// The mouse, moved in a direction.
    MouseMotion(MouseMotionDirection),
}

/// What an application binds an action to.
#[derive(Debug, PartialEq, Eq)]
pub enum UserInput {
    /// One atomic input.
    Single(InputKind),
    /// Up to eight atomic inputs that must all be active together.
    Chord(PetitSet<InputKind, 8>),
    /// Four buttons read as a two-dimensional input.
    VirtualDPad(VirtualDPad),
    /// Two buttons read as an axis.
    VirtualAxis(VirtualAxis),
}

impl Modifier {
    /// The two keys that stand for the modifier: the left one, then the right
    /// one.
    pub open spec fn keys(self) -> (KeyCode, KeyCode) {
        match self {
            Modifier::Alt => (KeyCode::LAlt, KeyCode::RAlt),
            Modifier::Control => (KeyCode::LControl, KeyCode::RControl),
            Modifier::Shift => (KeyCode::LShift, KeyCode::RShift),
            Modifier::Win => (KeyCode::LWin, KeyCode::RWin),
        }
    }

    /// The two keys that stand for the modifier.
    pub fn key_codes(self) -> (r: [KeyCode; 2])
        ensures
            r[0] == self.keys().0,
            r[1] == self.keys().1,
    {
        match self {
            Modifier::Alt => [KeyCode::LAlt, KeyCode::RAlt],
            Modifier::Control => [KeyCode::LControl, KeyCode::RControl],
            Modifier::Shift => [KeyCode::LShift, KeyCode::RShift],
            Modifier::Win => [KeyCode::LWin, KeyCode::RWin],
        }
    }
}

impl SingleAxis {
    /// Whether the axis reads the accumulated mouse wheel movement.
    pub open spec fn reads_wheel(self) -> bool {
        self.axis_type is MouseWheel
    }

    /// Whether the axis reads the accumulated mouse movement.
    pub open spec fn reads_motion(self) -> bool {
        self.axis_type is MouseMotion
    }
}

impl InputKind {
    /// Whether the input is a plain button: one without an analog reading.
    pub open spec fn is_digital(self) -> bool {
        match self {
            InputKind::Keyboard(_) => true,
            InputKind::KeyLocation(_) => true,
            InputKind::Modifier(_) => true,
            InputKind::Mouse(_) => true,
            InputKind::MouseWheel(_) => true,
            InputKind::MouseMotion(_) => true,
            _ => false,
        }
    }

    /// Whether evaluating the input reads the accumulated mouse wheel
    /// movement.
    pub open spec fn reads_wheel(self) -> bool {
        match self {
            InputKind::MouseWheel(_) => true,
            InputKind::SingleAxis(axis) => axis.reads_wheel(),
            InputKind::DualAxis(axes) => axes.x.reads_wheel() || axes.y.reads_wheel(),
            _ => false,
        }
    }

    /// Whether evaluating the input reads the accumulated mouse movement.
    pub open spec fn reads_motion(self) -> bool {
        match self {
            InputKind::MouseMotion(_) => true,
            InputKind::SingleAxis(axis) => axis.reads_motion(),
            InputKind::DualAxis(axes) => axes.x.reads_motion() || axes.y.reads_motion(),
            _ => false,
        }
    }
}

/// Whether evaluating any of `kinds` reads the accumulated mouse wheel
/// movement.
pub open spec fn any_reads_wheel(kinds: Seq<InputKind>) -> bool {
    exists|i: int| 0 <= i < kinds.len() && (#[trigger] kinds[i]).reads_wheel()
}

/// Whether evaluating any of `kinds` reads the accumulated mouse movement.
pub open spec fn any_reads_motion(kinds: Seq<InputKind>) -> bool {
    exists|i: int| 0 <= i < kinds.len() && (#[trigger] kinds[i]).reads_motion()
}

impl UserInput {
    /// Whether evaluating the input reads the accumulated mouse wheel
    /// movement.
    pub open spec fn reads_wheel(&self) -> bool {
        match self {
            UserInput::Single(kind) => kind.reads_wheel(),
            UserInput::Chord(chord) => any_reads_wheel(chord_members(chord)),
            UserInput::VirtualDPad(dpad) => dpad.up.reads_wheel() || dpad.down.reads_wheel()
                || dpad.left.reads_wheel() || dpad.right.reads_wheel(),
            UserInput::VirtualAxis(axis) => axis.negative.reads_wheel()
                || axis.positive.reads_wheel(),
        }
    }

    /// Whether evaluating the input reads the accumulated mouse movement.
    pub open spec fn reads_motion(&self) -> bool {
        match self {
            UserInput::Single(kind) => kind.reads_motion(),
            UserInput::Chord(chord) => any_reads_motion(chord_members(chord)),
            UserInput::VirtualDPad(dpad) => dpad.up.reads_motion() || dpad.down.reads_motion()
                || dpad.left.reads_motion() || dpad.right.reads_motion(),
            UserInput::VirtualAxis(axis) => axis.negative.reads_motion()
                || axis.positive.reads_motion(),
        }
    }
}

/// Whether evaluating any of `inputs` reads the accumulated mouse wheel
/// movement.
pub open spec fn any_input_reads_wheel(inputs: Seq<UserInput>) -> bool {
    exists|i: int| 0 <= i < inputs.len() && (#[trigger] inputs[i]).reads_wheel()
}

/// Whether evaluating any of `inputs` reads the accumulated mouse movement.
pub open spec fn any_input_reads_motion(inputs: Seq<UserInput>) -> bool {
    exists|i: int| 0 <= i < inputs.len() && (#[trigger] inputs[i]).reads_motion()
}

} // verus!
