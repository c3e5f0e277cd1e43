//! The device state this library reads, and what it relies on about it.
//!
//! Device state lives in `bevy`'s input collections and chords in `petitset`'s
//! sets.  Nothing in this module is proved: each function here makes one call
//! into those crates, or hands one of their values on, and its contract
//! records what that is taken to do.

use vstd::prelude::*;
use bevy::ecs::event::Events;
use bevy::input::gamepad::{
    Gamepad, GamepadAxis, GamepadAxisType, GamepadButton, GamepadButtonType, GamepadEvent,
    Gamepads,
};
use bevy::input::keyboard::{KeyCode, KeyboardInput, ScanCode};
use bevy::input::mouse::{
    MouseButton, MouseButtonInput, MouseMotion, MouseScrollUnit, MouseWheel,
};
use bevy::input::{Axis, Input};
use petitset::PetitSet;
use crate::mouse::{MotionDelta, WheelTick};
use crate::user_input::{InputKind, UserInput};

verus! {

/// `bevy::input::Input`: the set of buttons of one kind that are held down.
#[verifier::external_type_specification]
#[verifier::external_body]
#[verifier::reject_recursive_types(T)]
pub struct ExInput<T: Copy + Eq + std::hash::Hash + Send + Sync + 'static>(Input<T>);

/// `bevy::input::Axis`: a table of analog readings.
#[verifier::external_type_specification]
#[verifier::external_body]
#[verifier::reject_recursive_types(T)]
pub struct ExAxis<T>(Axis<T>);

/// `bevy::input::gamepad::Gamepads`: the connected gamepads.
#[verifier::external_type_specification]
#[verifier::external_body]
pub struct ExGamepads(Gamepads);

/// `petitset::PetitSet`: a small set with stable iteration order.
#[verifier::external_type_specification]
#[verifier::external_body]
#[verifier::reject_recursive_types(T)]
pub struct ExPetitSet<T, const CAP: usize>(PetitSet<T, CAP>);

/// `bevy::input::keyboard::KeyCode`, with its variants.
#[verifier::external_type_specification]
pub struct ExKeyCode(KeyCode);

/// `bevy::input::keyboard::ScanCode`, with its field.
#[verifier::external_type_specification]
pub struct ExScanCode(ScanCode);

/// `bevy::input::mouse::MouseButton`, with its variants.
#[verifier::external_type_specification]
pub struct ExMouseButton(MouseButton);

/// `bevy::input::mouse::MouseScrollUnit`, with its variants.
#[verifier::external_type_specification]
pub struct ExMouseScrollUnit(MouseScrollUnit);

/// `bevy::input::gamepad::Gamepad`, with its field.
#[verifier::external_type_specification]
pub struct ExGamepad(Gamepad);

/// `bevy::input::gamepad::GamepadButtonType`, with its variants.
#[verifier::external_type_specification]
pub struct ExGamepadButtonType(GamepadButtonType);

/// `bevy::input::gamepad::GamepadButton`, with its fields.
#[verifier::external_type_specification]
pub struct ExGamepadButton(GamepadButton);

/// `bevy::input::gamepad::GamepadAxisType`, with its variants.
#[verifier::external_type_specification]
pub struct ExGamepadAxisType(GamepadAxisType);

/// `bevy::input::gamepad::GamepadAxis`, with its fields.
#[verifier::external_type_specification]
pub struct ExGamepadAxis(GamepadAxis);

/// A borrowed queue of `bevy` mouse wheel events.
#[verifier::external_body]
pub struct MouseWheelEvents<'a> {
    /// The queue.
    pub events: &'a Events<MouseWheel>,
}

/// A borrowed queue of `bevy` mouse motion events.
#[verifier::external_body]
pub struct MouseMotionEvents<'a> {
    /// The queue.
    pub events: &'a Events<MouseMotion>,
}

/// A mutably borrowed queue of `bevy` mouse wheel events.
#[verifier::external_body]
pub struct MutableMouseWheelEvents<'a> {
    /// The queue.
    pub events: &'a mut Events<MouseWheel>,
}

/// A mutably borrowed queue of `bevy` mouse motion events.
#[verifier::external_body]
pub struct MutableMouseMotionEvents<'a> {
    /// The queue.
    pub events: &'a mut Events<MouseMotion>,
}

/// A mutably borrowed queue of `bevy` gamepad events.
#[verifier::external_body]
pub struct MutableGamepadEvents<'a> {
    /// The queue.
    pub events: &'a mut Events<GamepadEvent>,
}

/// A mutably borrowed queue of `bevy` keyboard events.
#[verifier::external_body]
pub struct MutableKeyboardEvents<'a> {
    /// The queue.
    pub events: &'a mut Events<KeyboardInput>,
}

/// A mutably borrowed queue of `bevy` mouse button events.
#[verifier::external_body]
pub struct MutableMouseButtonEvents<'a> {
    /// The queue.
    pub events: &'a mut Events<MouseButtonInput>,
}

/// The read-only borrow of the queue that `queue` borrows.
pub uninterp spec fn shared_wheel_events(queue: MutableMouseWheelEvents) -> MouseWheelEvents;

/// The read-only borrow of the queue that `queue` borrows.
pub uninterp spec fn shared_motion_events(queue: MutableMouseMotionEvents) -> MouseMotionEvents;

/// The keys that `keys` holds as pressed.
pub uninterp spec fn pressed_keys(keys: &Input<KeyCode>) -> Set<KeyCode>;

/// The key locations that `codes` holds as pressed.
pub uninterp spec fn pressed_scan_codes(codes: &Input<ScanCode>) -> Set<ScanCode>;

/// The mouse buttons that `buttons` holds as pressed.
pub uninterp spec fn pressed_mouse_buttons(buttons: &Input<MouseButton>) -> Set<MouseButton>;

/// The gamepad buttons that `buttons` holds as pressed.
pub uninterp spec fn pressed_gamepad_buttons(buttons: &Input<GamepadButton>) -> Set<GamepadButton>;

/// The gamepads that `gamepads` holds as connected.
pub uninterp spec fn connected_gamepads(gamepads: &Gamepads) -> Set<Gamepad>;

/// The readings that `axes` holds, each as a single-precision bit pattern.
pub uninterp spec fn gamepad_axis_readings(axes: &Axis<GamepadAxis>) -> Map<GamepadAxis, u32>;

/// The readings that `axes` holds, each as a single-precision bit pattern.
pub uninterp spec fn gamepad_button_readings(axes: &Axis<GamepadButton>) -> Map<GamepadButton, u32>;

/// The events that `queue` holds, oldest first.
pub uninterp spec fn wheel_log(queue: &MouseWheelEvents) -> Seq<WheelTick>;

/// The events that `queue` holds, oldest first.
pub uninterp spec fn motion_log(queue: &MouseMotionEvents) -> Seq<MotionDelta>;

/// The members of `chord`, in the order in which the set hands them out.
pub uninterp spec fn chord_members(chord: &PetitSet<InputKind, 8>) -> Seq<InputKind>;

/// The members of `inputs`, in the order in which the set hands them out.
pub uninterp spec fn input_members(inputs: &PetitSet<UserInput, 16>) -> Seq<UserInput>;

/// Calls `Input::pressed`, which looks `code` up in the set of pressed keys.
#[verifier::external_body]
pub(crate) fn key_pressed(keys: &Input<KeyCode>, code: KeyCode) -> (r: bool)
    ensures
        r == pressed_keys(keys).contains(code),
{
    keys.pressed(code)
}

/// Calls `Input::pressed`, which looks `code` up in the set of pressed key
/// locations.
#[verifier::external_body]
pub(crate) fn scan_code_pressed(codes: &Input<ScanCode>, code: ScanCode) -> (r: bool)
    ensures
        r == pressed_scan_codes(codes).contains(code),
{
    codes.pressed(code)
}

/// Calls `Input::pressed`, which looks `button` up in the set of pressed mouse
/// buttons.
#[verifier::external_body]
pub(crate) fn mouse_button_pressed(buttons: &Input<MouseButton>, button: MouseButton) -> (r: bool)
    ensures
        r == pressed_mouse_buttons(buttons).contains(button),
{
    buttons.pressed(button)
}

/// Calls `Input::pressed`, which looks `button` up in the set of pressed
/// gamepad buttons.
#[verifier::external_body]
pub(crate) fn gamepad_button_pressed(buttons: &Input<GamepadButton>, button: GamepadButton) -> (r: bool)
    ensures
        r == pressed_gamepad_buttons(buttons).contains(button),
{
    buttons.pressed(button)
}

/// Takes the first item of `Gamepads::iter`, which walks a hash map: the
/// result is some connected gamepad, and none only when none is connected.
/// Which one it is among several is not determined.
#[verifier::external_body]
pub(crate) fn first_gamepad(gamepads: &Gamepads) -> (r: Option<Gamepad>)
    ensures
        r matches Some(gamepad) ==> connected_gamepads(gamepads).contains(gamepad),
        r is None ==> connected_gamepads(gamepads) == Set::<Gamepad>::empty(),
{
    gamepads.iter().next()
}

/// Calls `Axis::get`, which returns a copy of the reading stored for `axis`,
/// if there is one; the reading is handed on as its bit pattern.
#[verifier::external_body]
pub(crate) fn gamepad_axis_reading(axes: &Axis<GamepadAxis>, axis: GamepadAxis) -> (r: Option<u32>)
    ensures
        r == (if gamepad_axis_readings(axes).dom().contains(axis) {
            Some(gamepad_axis_readings(axes)[axis])
        } else {
            None
        }),
{
    axes.get(axis).map(|reading| reading.to_bits())
}

/// Calls `Axis::get`, which returns a copy of the reading stored for
/// `button`, if there is one; the reading is handed on as its bit pattern.
#[verifier::external_body]
pub(crate) fn gamepad_button_reading(axes: &Axis<GamepadButton>, button: GamepadButton) -> (r: Option<u32>)
    ensures
        r == (if gamepad_button_readings(axes).dom().contains(button) {
            Some(gamepad_button_readings(axes)[button])
        } else {
            None
        }),
{
    axes.get(button).map(|reading| reading.to_bits())
}

/// Reads every event of the queue with a fresh `ManualEventReader`, oldest
/// first, each amount handed on as its bit pattern.  `bevy`'s wheel events
/// carry no momentum phase, so no tick is marked as momentum.
#[verifier::external_body]
pub(crate) fn read_wheel_events(queue: &MouseWheelEvents) -> (r: Vec<WheelTick>)
    ensures
        r@ == wheel_log(queue),
{
    let mut reader = queue.events.get_reader();
    reader.iter(queue.events).map(|event| WheelTick {
        unit: event.unit,
        x: event.x.to_bits(),
        y: event.y.to_bits(),
        momentum: false,
    }).collect()
}

/// Reads every event of the queue with a fresh `ManualEventReader`, oldest
/// first, each amount handed on as its bit pattern.
#[verifier::external_body]
pub(crate) fn read_motion_events(queue: &MouseMotionEvents) -> (r: Vec<MotionDelta>)
    ensures
        r@ == motion_log(queue),
{
    let mut reader = queue.events.get_reader();
    reader.iter(queue.events).map(|event| MotionDelta {
        dx: event.delta.x.to_bits(),
        dy: event.delta.y.to_bits(),
    }).collect()
}

/// Gives up the mutable borrow of the queue for a read-only one.
#[verifier::external_body]
pub(crate) fn into_wheel_events<'a>(queue: MutableMouseWheelEvents<'a>) -> (r: MouseWheelEvents<'a>)
    ensures
        r == shared_wheel_events(queue),
{
    MouseWheelEvents { events: queue.events }
}

/// Borrows the queue read-only for as long as `queue` is borrowed.
#[verifier::external_body]
pub(crate) fn share_wheel_events<'a>(queue: &'a MutableMouseWheelEvents<'a>) -> (r: MouseWheelEvents<'a>)
    ensures
        r == shared_wheel_events(*queue),
{
    MouseWheelEvents { events: &*queue.events }
}

/// Gives up the mutable borrow of the queue for a read-only one.
#[verifier::external_body]
pub(crate) fn into_motion_events<'a>(queue: MutableMouseMotionEvents<'a>) -> (r: MouseMotionEvents<'a>)
    ensures
        r == shared_motion_events(queue),
{
    MouseMotionEvents { events: queue.events }
}

/// Borrows the queue read-only for as long as `queue` is borrowed.
#[verifier::external_body]
pub(crate) fn share_motion_events<'a>(queue: &'a MutableMouseMotionEvents<'a>) -> (r: MouseMotionEvents<'a>)
    ensures
        r == shared_motion_events(*queue),
{
    MouseMotionEvents { events: &*queue.events }
}

/// Collects `PetitSet::iter`, which walks the set's slots in order.
#[verifier::external_body]
pub(crate) fn read_chord(chord: &PetitSet<InputKind, 8>) -> (r: Vec<InputKind>)
    ensures
        r@ == chord_members(chord),
{
    chord.iter().copied().collect()
}

/// Collects `PetitSet::iter`, which walks the set's slots in order.
#[verifier::external_body]
pub(crate) fn read_inputs<'a>(inputs: &'a PetitSet<UserInput, 16>) -> (r: Vec<&'a UserInput>)
    ensures
        r@.len() == input_members(inputs).len(),
        forall|i: int| 0 <= i < r@.len() ==> *r@[i] == input_members(inputs)[i],
{
    inputs.iter().collect()
}

} // verus!
