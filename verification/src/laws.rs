//! What holds of every evaluation, whatever the devices hold.

use vstd::prelude::*;
use bevy::input::gamepad::{Gamepad, GamepadButtonType};
use petitset::PetitSet;
use crate::axislike::{DualAxis, SingleAxis, VirtualAxis, VirtualDPad};
use crate::devices::{chord_members, connected_gamepads};
use crate::input_streams::{InputStreams, PreparedInputStreams};
use crate::scalar::{magnitude, ONE};
use crate::user_input::{InputKind, UserInput};

verus! {

/// A chord is pressed exactly when each of its members is pressed; a chord
/// without members is pressed.
pub proof fn lemma_chord_pressed(
    streams: InputStreams,
    target: Option<Gamepad>,
    chord: PetitSet<InputKind, 8>,
)
    ensures
        streams.is_pressed(target, &UserInput::Chord(chord)) <==> (forall|i: int|
            0 <= i < chord_members(&chord).len() ==> streams.is_button_pressed(
                target,
                #[trigger] chord_members(&chord)[i],
            )),
        chord_members(&chord).len() == 0 ==> streams.is_pressed(target, &UserInput::Chord(chord)),
{
}

/// A virtual pad is pressed exactly when one of its four buttons is pressed.
pub proof fn lemma_dpad_pressed(streams: InputStreams, target: Option<Gamepad>, dpad: VirtualDPad)
    ensures
        streams.is_pressed(target, &UserInput::VirtualDPad(dpad)) <==> (streams.is_button_pressed(
            target,
            dpad.up,
        ) || streams.is_button_pressed(target, dpad.down) || streams.is_button_pressed(
            target,
            dpad.left,
        ) || streams.is_button_pressed(target, dpad.right)),
{
}

/// The value of a virtual axis is the magnitude of the value of its positive
/// input less the magnitude of the value of its negative input.  Where both
/// inputs are plain buttons it is `-ONE`, zero or `ONE`.
pub proof fn lemma_virtual_axis_value(
    streams: InputStreams,
    target: Option<Gamepad>,
    axis: VirtualAxis,
)
    ensures
        streams.value(target, &UserInput::VirtualAxis(axis)) == magnitude(
            streams.value(target, &UserInput::Single(axis.positive)),
        ) - magnitude(streams.value(target, &UserInput::Single(axis.negative))),
        axis.positive.is_digital() && axis.negative.is_digital() ==> {
            let value = streams.value(target, &UserInput::VirtualAxis(axis));
            value == -ONE || value == 0 || value == ONE
        },
{
}

/// The dead zone of an axis: a raw reading inside it gives the value zero and
/// the axis is not pressed; a raw reading outside it is the value and the axis
/// is pressed.
///
/// The first half needs zero to lie inside the dead zone: pressed is decided
/// on the value, and the value zero lies outside a dead zone that leaves zero
/// out.
pub proof fn lemma_dead_zone(streams: InputStreams, target: Option<Gamepad>, axis: SingleAxis)
    requires
        axis.negative_low <= streams.axis_reading(target, axis) <= axis.positive_low
            ==> axis.negative_low <= 0 <= axis.positive_low,
    ensures
        ({
            let reading = streams.axis_reading(target, axis);
            let value = streams.value(target, &UserInput::Single(InputKind::SingleAxis(axis)));
            let pressed = streams.is_button_pressed(target, InputKind::SingleAxis(axis));
            if axis.negative_low <= reading <= axis.positive_low {
                value == 0 && !pressed
            } else {
                value == reading && pressed
            }
        }),
{
}

/// An axis whose thresholds are crossed over has no dead zone: its value is
/// its raw reading and it is pressed, whatever the reading.
pub proof fn lemma_empty_dead_zone(streams: InputStreams, target: Option<Gamepad>, axis: SingleAxis)
    requires
        axis.negative_low > axis.positive_low,
    ensures
        streams.value(target, &UserInput::Single(InputKind::SingleAxis(axis)))
            == streams.axis_reading(target, axis),
        streams.is_button_pressed(target, InputKind::SingleAxis(axis)),
{
}

/// The two-dimensional value of a pair of axes is the pair of their values:
/// when neither raw reading lies outside its dead zone, both values are zero
/// already.
pub proof fn lemma_dual_axis_pair(streams: InputStreams, target: Option<Gamepad>, axes: DualAxis)
    ensures
        streams.dual_axis_pair(target, axes) == (
            streams.axis_value(target, axes.x),
            streams.axis_value(target, axes.y),
        ),
{
}

/// Each event log is summed at most once.  Of three states of one engine, each
/// prepared from the one before: a total that the second state holds is the
/// total of its log, and the third state holds it unchanged.  What the two
/// steps prepared together, the third state has prepared.
pub proof fn lemma_totals_summed_once(
    first: PreparedInputStreams,
    second: PreparedInputStreams,
    third: PreparedInputStreams,
    wheel: (bool, bool),
    motion: (bool, bool),
)
    requires
        second.prepared_from(&first, wheel.0, motion.0),
        third.prepared_from(&second, wheel.1, motion.1),
    ensures
        second.wheel_cached() ==> third.wheel_cached() && third.stored_wheel_total()
            == second.stored_wheel_total() && second.stored_wheel_total()
            == first.streams().wheel_total(),
        second.motion_cached() ==> third.motion_cached() && third.stored_motion_total()
            == second.stored_motion_total() && second.stored_motion_total()
            == first.streams().motion_total(),
        third.prepared_from(&first, wheel.0 || wheel.1, motion.0 || motion.1),
{
}

/// With a gamepad pinned, queries aim at it whatever is connected.  With none
/// pinned and none connected, queries aim at no gamepad.
pub proof fn lemma_gamepad_resolution(streams: InputStreams, target: Option<Gamepad>)
    requires
        streams.may_resolve_to(target),
    ensures
        streams.associated_gamepad is Some ==> target == streams.associated_gamepad,
        streams.associated_gamepad is None && connected_gamepads(streams.gamepads)
            == Set::<Gamepad>::empty() ==> target is None,
        streams.associated_gamepad is None && target is Some ==> connected_gamepads(
            streams.gamepads,
        ).contains(target->0),
{
}

/// Without a gamepad to aim at, a gamepad button is not pressed and is worth
/// zero, and a gamepad axis reads zero; the axis is not pressed where its
/// dead zone holds zero.
pub proof fn lemma_no_gamepad_is_neutral(
    streams: InputStreams,
    button_type: GamepadButtonType,
    axis: SingleAxis,
)
    requires
        axis.axis_type is Gamepad,
    ensures
        !streams.is_button_pressed(None, InputKind::GamepadButton(button_type)),
        streams.value(None, &UserInput::Single(InputKind::GamepadButton(button_type))) == 0,
        streams.value(None, &UserInput::Single(InputKind::SingleAxis(axis))) == 0,
        axis.negative_low <= 0 <= axis.positive_low ==> !streams.is_button_pressed(
            None,
            InputKind::SingleAxis(axis),
        ),
{
}

/// Without a keyboard view no key is pressed, and no modifier.
pub proof fn lemma_no_keyboard_is_neutral(
    streams: InputStreams,
    target: Option<Gamepad>,
    kind: InputKind,
)
    requires
        streams.keycodes is None,
        kind is Keyboard || kind is Modifier,
    ensures
        !streams.is_pressed(target, &UserInput::Single(kind)),
        streams.value(target, &UserInput::Single(kind)) == 0,
{
}

} // verus!
