//! The device views and the engine that evaluates abstract inputs on them.

use vstd::prelude::*;
use bevy::input::gamepad::{Gamepad, GamepadAxis, GamepadButton, Gamepads};
use bevy::input::keyboard::{KeyCode, ScanCode};
use bevy::input::mouse::MouseButton;
use bevy::input::{Axis, Input};
use petitset::PetitSet;
use crate::axislike::{AxisType, DualAxis, DualAxisData, MouseMotionAxisType, MouseWheelAxisType, SingleAxis, VirtualAxis, VirtualDPad};
use crate::buttonlike::points;
use crate::devices::{
    chord_members, connected_gamepads, first_gamepad, gamepad_axis_reading,
    gamepad_axis_readings, gamepad_button_pressed, gamepad_button_reading,
    gamepad_button_readings, input_members, key_pressed, motion_log, mouse_button_pressed,
    pressed_gamepad_buttons, pressed_keys, pressed_mouse_buttons, pressed_scan_codes,
    read_chord, read_inputs, read_motion_events, read_wheel_events, scan_code_pressed,
    into_motion_events, into_wheel_events, share_motion_events, share_wheel_events,
    shared_motion_events, shared_wheel_events, wheel_log, MouseMotionEvents, MouseWheelEvents,
    MutableGamepadEvents, MutableKeyboardEvents, MutableMouseButtonEvents,
    MutableMouseMotionEvents, MutableMouseWheelEvents,
};
use vstd::std_specs::convert::FromSpecImpl;
use crate::mouse::{motion_total, total_mouse_movement, total_wheel_movement, wheel_total};
use crate::scalar::{decoded, length, length_of, lemma_length_bounded, opposed, opposed_value, scalar_from_bits, LIMIT, ONE};
use crate::user_input::{any_input_reads_motion, any_input_reads_wheel, any_reads_motion, any_reads_wheel, InputKind, UserInput};

verus! {

/// Read-only views of the device state of one evaluation cycle.
///
/// The keyboard, key location, mouse button and mouse wheel views may be
/// absent; an absent view matches nothing.
pub struct InputStreams<'a> {
    /// The gamepad buttons that are held down.
    pub gamepad_buttons: &'a Input<GamepadButton>,
    /// The analog readings of gamepad buttons.
    pub gamepad_button_axes: &'a Axis<GamepadButton>,
    /// The analog readings of gamepad axes.
    pub gamepad_axes: &'a Axis<GamepadAxis>,
    /// The connected gamepads.
    pub gamepads: &'a Gamepads,
    /// The keys that are held down.
    pub keycodes: Option<&'a Input<KeyCode>>,
    /// The key locations that are held down.
    pub scan_codes: Option<&'a Input<ScanCode>>,
    /// The mouse buttons that are held down.
    pub mouse_buttons: Option<&'a Input<MouseButton>>,
    /// The mouse wheel events of this cycle.
    pub mouse_wheel: Option<MouseWheelEvents<'a>>,
    /// The mouse motion events of this cycle.
    pub mouse_motion: MouseMotionEvents<'a>,
    /// The gamepad that queries are pinned to, if any.
    pub associated_gamepad: Option<Gamepad>,
}

/// The value of a button: `ONE` when pressed, zero otherwise.
pub open spec fn button_value(pressed: bool) -> int {
    if pressed {
        ONE as int
    } else {
        0
    }
}

impl<'a> InputStreams<'a> {
    /// Whether gamepad queries may be aimed at `target`: at the pinned gamepad
    /// if one is pinned; otherwise at some connected gamepad, or at none when
    /// none is connected.
    pub open spec fn may_resolve_to(&self, target: Option<Gamepad>) -> bool {
        match self.associated_gamepad {
            Some(gamepad) => target == Some(gamepad),
            None => match target {
                Some(gamepad) => connected_gamepads(self.gamepads).contains(gamepad),
                None => connected_gamepads(self.gamepads) == Set::<Gamepad>::empty(),
            },
        }
    }

    /// The accumulated mouse wheel movement of this cycle: the total of the
    /// wheel events, or zero without a wheel view.
    pub open spec fn wheel_total(&self) -> (int, int) {
        match self.mouse_wheel {
            Some(queue) => wheel_total(wheel_log(&queue)),
            None => (0, 0),
        }
    }

    /// The accumulated mouse movement of this cycle.
    pub open spec fn motion_total(&self) -> (int, int) {
        motion_total(motion_log(&self.mouse_motion))
    }

    /// The raw reading of an axis, with gamepad queries aimed at `target`:
    /// zero without a gamepad or without a reading for the axis.
    pub open spec fn axis_reading(&self, target: Option<Gamepad>, axis: SingleAxis) -> int {
        match axis.axis_type {
            AxisType::Gamepad(axis_type) => match target {
                Some(gamepad) => {
                    let key = GamepadAxis { gamepad, axis_type };
                    if gamepad_axis_readings(self.gamepad_axes).dom().contains(key) {
                        decoded(gamepad_axis_readings(self.gamepad_axes)[key])
                    } else {
                        0
                    }
                },
                None => 0,
            },
            AxisType::MouseWheel(MouseWheelAxisType::X) => self.wheel_total().0,
            AxisType::MouseWheel(MouseWheelAxisType::Y) => self.wheel_total().1,
            AxisType::MouseMotion(MouseMotionAxisType::X) => self.motion_total().0,
            AxisType::MouseMotion(MouseMotionAxisType::Y) => self.motion_total().1,
        }
    }

    /// The value of an axis: its raw reading with the dead zone applied.
    pub open spec fn axis_value(&self, target: Option<Gamepad>, axis: SingleAxis) -> int {
        axis.filtered(self.axis_reading(target, axis))
    }

    /// Whether an axis counts as pressed: its value lies outside its dead
    /// zone.
    pub open spec fn axis_pressed(&self, target: Option<Gamepad>, axis: SingleAxis) -> bool {
        axis.outside_dead_zone(self.axis_value(target, axis))
    }

    /// Whether `key` is held down; never without a keyboard view.
    pub open spec fn key_down(&self, key: KeyCode) -> bool {
        self.keycodes matches Some(keys) && pressed_keys(keys).contains(key)
    }

    /// Whether an atomic input is pressed, with gamepad queries aimed at
    /// `target`.
    pub open spec fn is_button_pressed(&self, target: Option<Gamepad>, button: InputKind) -> bool {
        match button {
            InputKind::DualAxis(axes) => self.axis_pressed(target, axes.x) || self.axis_pressed(
                target,
                axes.y,
            ),
            InputKind::SingleAxis(axis) => self.axis_pressed(target, axis),
            InputKind::GamepadButton(button_type) => target matches Some(gamepad)
                && pressed_gamepad_buttons(self.gamepad_buttons).contains(
                GamepadButton { gamepad, button_type },
            ),
            InputKind::Keyboard(key) => self.key_down(key),
            InputKind::KeyLocation(code) => self.scan_codes matches Some(codes)
                && pressed_scan_codes(codes).contains(code),
            InputKind::Modifier(modifier) => self.key_down(modifier.keys().0) || self.key_down(
                modifier.keys().1,
            ),
            InputKind::Mouse(button) => self.mouse_buttons matches Some(buttons)
                && pressed_mouse_buttons(buttons).contains(button),
            InputKind::MouseWheel(direction) => points(
                self.wheel_total(),
                direction.vertical(),
                direction.positive(),
            ),
            InputKind::MouseMotion(direction) => points(
                self.motion_total(),
                direction.vertical(),
                direction.positive(),
            ),
        }
    }

    /// Whether every one of `buttons` is pressed.
    pub open spec fn are_all_pressed(&self, target: Option<Gamepad>, buttons: Seq<InputKind>) -> bool {
        forall|i: int| 0 <= i < buttons.len() ==> self.is_button_pressed(target, #[trigger] buttons[i])
    }

    /// Whether an input is pressed: a single input as itself, a chord when
    /// all its members are, a virtual pad or axis when any of its members is.
    pub open spec fn is_pressed(&self, target: Option<Gamepad>, input: &UserInput) -> bool {
        match input {
            UserInput::Single(button) => self.is_button_pressed(target, *button),
            UserInput::Chord(chord) => self.are_all_pressed(target, chord_members(chord)),
            UserInput::VirtualDPad(dpad) => self.is_button_pressed(target, dpad.up)
                || self.is_button_pressed(target, dpad.down) || self.is_button_pressed(
                target,
                dpad.left,
            ) || self.is_button_pressed(target, dpad.right),
            UserInput::VirtualAxis(axis) => self.is_button_pressed(target, axis.negative)
                || self.is_button_pressed(target, axis.positive),
        }
    }

    /// Whether at least one of `inputs` is pressed.
    pub open spec fn is_any_pressed(&self, target: Option<Gamepad>, inputs: Seq<UserInput>) -> bool {
        exists|i: int| 0 <= i < inputs.len() && self.is_pressed(target, &#[trigger] inputs[i])
    }

    /// The two-dimensional value of a pair of axes: their values, or zero when
    /// neither raw reading lies outside its dead zone.
    pub open spec fn dual_axis_pair(&self, target: Option<Gamepad>, axes: DualAxis) -> (int, int) {
        if axes.x.outside_dead_zone(self.axis_reading(target, axes.x))
            || axes.y.outside_dead_zone(self.axis_reading(target, axes.y)) {
            (self.axis_value(target, axes.x), self.axis_value(target, axes.y))
        } else {
            (0, 0)
        }
    }

    /// The scalar value of an atomic input.
    ///
    /// An axis has its value, a pair of axes the length of its
    /// two-dimensional value.  A gamepad button has its analog reading where
    /// the gamepad reports one, and is zero without a gamepad.  Everything
    /// else has the value of a button.
    pub open spec fn kind_value(&self, target: Option<Gamepad>, kind: InputKind) -> int {
        match kind {
            InputKind::SingleAxis(axis) => self.axis_value(target, axis),
            InputKind::DualAxis(axes) => length_of(
                self.dual_axis_pair(target, axes).0,
                self.dual_axis_pair(target, axes).1,
            ),
            InputKind::GamepadButton(button_type) => match target {
                Some(gamepad) => {
                    let key = GamepadButton { gamepad, button_type };
                    if gamepad_button_readings(self.gamepad_button_axes).dom().contains(key) {
                        decoded(gamepad_button_readings(self.gamepad_button_axes)[key])
                    } else {
                        button_value(self.is_button_pressed(target, kind))
                    }
                },
                None => 0,
            },
            _ => button_value(self.is_button_pressed(target, kind)),
        }
    }

    /// The two-dimensional value of a virtual pad: right against left, up
    /// against down.
    pub open spec fn dpad_pair(&self, target: Option<Gamepad>, dpad: VirtualDPad) -> (int, int) {
        (
            opposed(self.kind_value(target, dpad.right), self.kind_value(target, dpad.left)),
            opposed(self.kind_value(target, dpad.up), self.kind_value(target, dpad.down)),
        )
    }

    /// The scalar value of an input.
    pub open spec fn value(&self, target: Option<Gamepad>, input: &UserInput) -> int {
        match input {
            UserInput::Single(kind) => self.kind_value(target, *kind),
            UserInput::VirtualAxis(axis) => opposed(
                self.kind_value(target, axis.positive),
                self.kind_value(target, axis.negative),
            ),
            UserInput::VirtualDPad(dpad) => length_of(
                self.dpad_pair(target, *dpad).0,
                self.dpad_pair(target, *dpad).1,
            ),
            UserInput::Chord(_) => button_value(self.is_pressed(target, input)),
        }
    }

    /// The two-dimensional value of an input; only pairs of axes and virtual
    /// pads have one.
    pub open spec fn axis_pair(&self, target: Option<Gamepad>, input: &UserInput) -> Option<(int, int)> {
        match input {
            UserInput::Single(InputKind::DualAxis(axes)) => Some(self.dual_axis_pair(target, *axes)),
            UserInput::VirtualDPad(dpad) => Some(self.dpad_pair(target, *dpad)),
            _ => None,
        }
    }

    /// Picks the gamepad that queries are aimed at: the pinned one if one is
    /// pinned, else the first that the collection of connected gamepads hands
    /// out, if any.
    pub fn guess_gamepad(&self) -> (r: Option<Gamepad>)
        ensures
            self.may_resolve_to(r),
    {
        match self.associated_gamepad {
            Some(gamepad) => Some(gamepad),
            None => first_gamepad(self.gamepads),
        }
    }
}

/// Device views together with the totals of the continuous mouse events,
/// which are summed at most once, when an input first needs them.
///
/// One value serves one evaluation cycle: its totals are never refreshed.
pub struct PreparedInputStreams<'a> {
    input_streams: &'a InputStreams<'a>,
    gamepad: Option<Gamepad>,
    mouse_wheel_cached: bool,
    total_mouse_wheel_movement: (i64, i64),
    mouse_movement_cached: bool,
    total_mouse_movement: (i64, i64),
}

impl<'a> PreparedInputStreams<'a> {
    #[verifier::type_invariant]
    spec fn well_formed(self) -> bool {
        &&& self.input_streams.may_resolve_to(self.gamepad)
        &&& self.mouse_wheel_cached ==> self.input_streams.mouse_wheel is Some
        &&& (self.total_mouse_wheel_movement.0 as int, self.total_mouse_wheel_movement.1 as int)
            == if self.mouse_wheel_cached {
            self.input_streams.wheel_total()
        } else {
            (0, 0)
        }
        &&& (self.total_mouse_movement.0 as int, self.total_mouse_movement.1 as int)
            == if self.mouse_movement_cached {
            self.input_streams.motion_total()
        } else {
            (0, 0)
        }
    }

    /// The device views that queries are answered from.
    pub closed spec fn streams(&self) -> InputStreams<'a> {
        *self.input_streams
    }

    /// The gamepad that gamepad queries are aimed at.
    pub closed spec fn target(&self) -> Option<Gamepad> {
        self.gamepad
    }

    /// Whether the mouse wheel events have been summed.
    pub closed spec fn wheel_cached(&self) -> bool {
        self.mouse_wheel_cached
    }

    /// Whether the mouse motion events have been summed.
    pub closed spec fn motion_cached(&self) -> bool {
        self.mouse_movement_cached
    }

    /// The stored mouse wheel total.
    pub closed spec fn stored_wheel_total(&self) -> (int, int) {
        (self.total_mouse_wheel_movement.0 as int, self.total_mouse_wheel_movement.1 as int)
    }

    /// The stored mouse motion total.
    pub closed spec fn stored_motion_total(&self) -> (int, int) {
        (self.total_mouse_movement.0 as int, self.total_mouse_movement.1 as int)
    }

    /// Whether the stored state is what one pass over each event log gives:
    /// a total that has been summed is the total of its log, a total that has
    /// not been summed is zero, and the target is one that the views allow.
    pub open spec fn settled(&self) -> bool {
        &&& self.streams().may_resolve_to(self.target())
        &&& self.wheel_cached() ==> self.streams().mouse_wheel is Some
        &&& self.stored_wheel_total() == if self.wheel_cached() {
            self.streams().wheel_total()
        } else {
            (0, 0)
        }
        &&& self.stored_motion_total() == if self.motion_cached() {
            self.streams().motion_total()
        } else {
            (0, 0)
        }
    }

    /// How this value relates to an earlier state `before` of it after inputs
    /// were prepared of which some read the wheel total (`wheel`) or the motion
    /// total (`motion`): the views and the target are the same, totals that
    /// were summed stay summed, and each total that is read has been summed;
    /// the wheel total only where there is a wheel view.
    pub open spec fn prepared_from(&self, before: &Self, wheel: bool, motion: bool) -> bool {
        &&& self.settled()
        &&& self.streams() == before.streams()
        &&& self.target() == before.target()
        &&& self.wheel_cached() == (before.wheel_cached() || (wheel
            && before.streams().mouse_wheel is Some))
        &&& self.motion_cached() == (before.motion_cached() || motion)
    }

    /// Whether the totals that an input needs are at hand, for an input that
    /// reads the wheel total (`wheel`) or the motion total (`motion`).
    spec fn covers(&self, wheel: bool, motion: bool) -> bool {
        &&& wheel && self.streams().mouse_wheel is Some ==> self.wheel_cached()
        &&& motion ==> self.motion_cached()
    }

    /// Starts an evaluation cycle on `input_streams`: the gamepad to aim at is
    /// picked once, and no events have been summed.
    pub fn from(input_streams: &'a InputStreams<'a>) -> (r: Self)
        ensures
            r.streams() == *input_streams,
            r.settled(),
            !r.wheel_cached(),
            !r.motion_cached(),
    {
        let gamepad = input_streams.guess_gamepad();
        PreparedInputStreams {
            input_streams,
            gamepad,
            mouse_wheel_cached: false,
            total_mouse_wheel_movement: (0, 0),
            mouse_movement_cached: false,
            total_mouse_movement: (0, 0),
        }
    }

    /// Starts an evaluation cycle and sums at once what `user_inputs` need.
    pub fn from_inputs(input_streams: &'a InputStreams<'a>, user_inputs: &[UserInput]) -> (r: Self)
        ensures
            r.streams() == *input_streams,
            r.settled(),
            r.wheel_cached() == (any_input_reads_wheel(user_inputs@)
                && input_streams.mouse_wheel is Some),
            r.motion_cached() == any_input_reads_motion(user_inputs@),
    {
        let mut result = Self::from(input_streams);
        result.prepare_inputs(user_inputs);
        result
    }

    /// The device views that queries are answered from.
    pub fn input_streams(&self) -> (r: &'a InputStreams<'a>)
        ensures
            *r == self.streams(),
    {
        self.input_streams
    }

    /// The gamepad that gamepad queries are aimed at.
    pub fn gamepad(&self) -> (r: Option<Gamepad>)
        ensures
            r == self.target(),
            self.streams().may_resolve_to(r),
    {
        proof {
            use_type_invariant(self);
        }
        self.gamepad
    }

    /// Sums what each of `user_inputs` needs.
    pub fn prepare_inputs(&mut self, user_inputs: &[UserInput])
        ensures
            final(self).prepared_from(
                old(self),
                any_input_reads_wheel(user_inputs@),
                any_input_reads_motion(user_inputs@),
            ),
    {
        proof {
            use_type_invariant(&*self);
        }
        let mut i: usize = 0;
        while i < user_inputs.len()
            invariant
                i <= user_inputs.len(),
                self.prepared_from(
                    old(self),
                    any_input_reads_wheel(user_inputs@.take(i as int)),
                    any_input_reads_motion(user_inputs@.take(i as int)),
                ),
            decreases user_inputs.len() - i,
        {
            self.prepare_input(&user_inputs[i]);
            proof {
                lemma_inputs_step(user_inputs@, i as int);
            }
            i = i + 1;
        }
        proof {
            assert(user_inputs@.take(user_inputs.len() as int) == user_inputs@);
        }
    }

    /// Sums what `user_input` needs: the wheel total if any member of it
    /// reads the wheel, the motion total if any member reads the motion.
    pub fn prepare_input(&mut self, user_input: &UserInput)
        ensures
            final(self).prepared_from(old(self), user_input.reads_wheel(), user_input.reads_motion()),
    {
        proof {
            use_type_invariant(&*self);
        }
        match user_input {
            UserInput::Single(input_kind) => self.prepare_input_kind(input_kind),
            UserInput::Chord(chord) => {
                let members = read_chord(chord);
                let mut i: usize = 0;
                while i < members.len()
                    invariant
                        i <= members.len(),
                        self.prepared_from(
                            old(self),
                            any_reads_wheel(members@.take(i as int)),
                            any_reads_motion(members@.take(i as int)),
                        ),
                    decreases members.len() - i,
                {
                    self.prepare_input_kind(&members[i]);
                    proof {
                        lemma_kinds_step(members@, i as int);
                    }
                    i = i + 1;
                }
                proof {
                    assert(members@.take(members.len() as int) == members@);
                }
            },
            UserInput::VirtualDPad(virtual_dpad) => {
                self.prepare_input_kind(&virtual_dpad.up);
                self.prepare_input_kind(&virtual_dpad.down);
                self.prepare_input_kind(&virtual_dpad.left);
                self.prepare_input_kind(&virtual_dpad.right);
            },
            UserInput::VirtualAxis(virtual_axis) => {
                self.prepare_input_kind(&virtual_axis.negative);
                self.prepare_input_kind(&virtual_axis.positive);
            },
        }
    }

    /// Sums what `input_kind` needs: the wheel total for a wheel direction or
    /// an axis of the wheel, the motion total for a motion direction or an
    /// axis of the motion, nothing for any other input.
    pub fn prepare_input_kind(&mut self, input_kind: &InputKind)
        ensures
            final(self).prepared_from(old(self), input_kind.reads_wheel(), input_kind.reads_motion()),
    {
        proof {
            use_type_invariant(&*self);
        }
        match input_kind {
            InputKind::MouseWheel(_) => self.cache_mouse_wheel(),
            InputKind::MouseMotion(_) => self.cache_mouse_movement(),
            InputKind::SingleAxis(single_axis) => self.prepare_axis(single_axis),
            InputKind::DualAxis(dual_axis) => {
                self.prepare_axis(&dual_axis.x);
                self.prepare_axis(&dual_axis.y);
            },
            _ => {},
        }
    }

    fn prepare_axis(&mut self, axis: &SingleAxis)
        ensures
            final(self).prepared_from(old(self), axis.reads_wheel(), axis.reads_motion()),
    {
        proof {
            use_type_invariant(&*self);
        }
        match axis.axis_type {
            AxisType::MouseWheel(_) => self.cache_mouse_wheel(),
            AxisType::MouseMotion(_) => self.cache_mouse_movement(),
            AxisType::Gamepad(_) => {},
        }
    }

    fn cache_mouse_movement(&mut self)
        ensures
            final(self).prepared_from(old(self), false, true),
    {
        proof {
            use_type_invariant(&*self);
        }
        if self.mouse_movement_cached {
            return ;
        }
        let deltas = read_motion_events(&self.input_streams.mouse_motion);
        let total = total_mouse_movement(&deltas);
        *self = PreparedInputStreams {
            input_streams: self.input_streams,
            gamepad: self.gamepad,
            mouse_wheel_cached: self.mouse_wheel_cached,
            total_mouse_wheel_movement: self.total_mouse_wheel_movement,
            mouse_movement_cached: true,
            total_mouse_movement: total,
        };
    }

    fn cache_mouse_wheel(&mut self)
        ensures
            final(self).prepared_from(old(self), true, false),
    {
        proof {
            use_type_invariant(&*self);
        }
        if self.mouse_wheel_cached {
            return ;
        }
        match &self.input_streams.mouse_wheel {
            None => {},
            Some(mouse_wheel) => {
                let ticks = read_wheel_events(mouse_wheel);
                let total = total_wheel_movement(&ticks);
                *self = PreparedInputStreams {
                    input_streams: self.input_streams,
                    gamepad: self.gamepad,
                    mouse_wheel_cached: true,
                    total_mouse_wheel_movement: total,
                    mouse_movement_cached: self.mouse_movement_cached,
                    total_mouse_movement: self.total_mouse_movement,
                };
            },
        }
    }
}

impl<'a> PreparedInputStreams<'a> {
    /// Is the `input` matched by the device views?
    pub fn input_pressed(&mut self, input: &UserInput) -> (r: bool)
        ensures
            r == old(self).streams().is_pressed(old(self).target(), input),
            final(self).prepared_from(old(self), input.reads_wheel(), input.reads_motion()),
    {
        self.prepare_input(input);
        self.pressed_now(input)
    }

    /// Is at least one of the `inputs` pressed?
    #[must_use]
    pub fn any_pressed(&mut self, inputs: &PetitSet<UserInput, 16>) -> (r: bool)
        ensures
            r == old(self).streams().is_any_pressed(old(self).target(), input_members(inputs)),
            final(self).prepared_from(
                old(self),
                any_input_reads_wheel(input_members(inputs)),
                any_input_reads_motion(input_members(inputs)),
            ),
    {
        proof {
            use_type_invariant(&*self);
        }
        let members = read_inputs(inputs);
        let ghost listed = input_members(inputs);
        let mut i: usize = 0;
        while i < members.len()
            invariant
                i <= members.len(),
                members@.len() == listed.len(),
                forall|j: int| 0 <= j < members@.len() ==> *members@[j] == listed[j],
                self.prepared_from(
                    old(self),
                    any_input_reads_wheel(listed.take(i as int)),
                    any_input_reads_motion(listed.take(i as int)),
                ),
            decreases members.len() - i,
        {
            self.prepare_input(members[i]);
            proof {
                lemma_inputs_step(listed, i as int);
            }
            i = i + 1;
        }
        proof {
            assert(listed.take(listed.len() as int) == listed);
        }
        let mut k: usize = 0;
        while k < members.len()
            invariant
                k <= members.len(),
                members@.len() == listed.len(),
                forall|j: int| 0 <= j < members@.len() ==> *members@[j] == listed[j],
                listed == input_members(inputs),
                self.prepared_from(
                    old(self),
                    any_input_reads_wheel(listed),
                    any_input_reads_motion(listed),
                ),
                forall|j: int|
                    0 <= j < k ==> !self.streams().is_pressed(self.target(), &#[trigger] listed[j]),
            decreases members.len() - k,
        {
            proof {
                assert(*members@[k as int] == listed[k as int]);
                assert(listed[k as int].reads_wheel() ==> any_input_reads_wheel(listed));
                assert(listed[k as int].reads_motion() ==> any_input_reads_motion(listed));
            }
            if self.pressed_now(members[k]) {
                proof {
                    assert(self.streams().is_pressed(self.target(), &listed[k as int]));
                }
                return true;
            }
            k = k + 1;
        }
        false
    }

    /// Is the `button` pressed?
    #[must_use]
    pub fn button_pressed(&mut self, button: InputKind) -> (r: bool)
        ensures
            r == old(self).streams().is_button_pressed(old(self).target(), button),
            final(self).prepared_from(old(self), button.reads_wheel(), button.reads_motion()),
    {
        self.prepare_input_kind(&button);
        self.button_pressed_now(button)
    }

    /// Are all of the `buttons` pressed?
    #[must_use]
    pub fn all_buttons_pressed(&mut self, buttons: &PetitSet<InputKind, 8>) -> (r: bool)
        ensures
            r == old(self).streams().are_all_pressed(old(self).target(), chord_members(buttons)),
            final(self).prepared_from(
                old(self),
                any_reads_wheel(chord_members(buttons)),
                any_reads_motion(chord_members(buttons)),
            ),
    {
        proof {
            use_type_invariant(&*self);
        }
        let members = read_chord(buttons);
        let mut i: usize = 0;
        while i < members.len()
            invariant
                i <= members.len(),
                self.prepared_from(
                    old(self),
                    any_reads_wheel(members@.take(i as int)),
                    any_reads_motion(members@.take(i as int)),
                ),
            decreases members.len() - i,
        {
            self.prepare_input_kind(&members[i]);
            proof {
                lemma_kinds_step(members@, i as int);
            }
            i = i + 1;
        }
        proof {
            assert(members@.take(members.len() as int) == members@);
        }
        self.all_pressed_now(&members)
    }

    /// Get the scalar value of the input.
    ///
    /// Buttons and chords are worth `ONE` when pressed and zero otherwise;
    /// analog inputs are worth their reading, which is not normalised.
    pub fn input_value(&mut self, input: &UserInput) -> (r: i64)
        ensures
            r == old(self).streams().value(old(self).target(), input),
            final(self).prepared_from(old(self), input.reads_wheel(), input.reads_motion()),
    {
        self.prepare_input(input);
        self.value_now(input)
    }

    /// Get the two-dimensional value of the input; `None` unless the input
    /// is a pair of axes or a virtual pad.
    pub fn input_axis_pair(&mut self, input: &UserInput) -> (r: Option<DualAxisData>)
        ensures
            match r {
                Some(data) => old(self).streams().axis_pair(old(self).target(), input) == Some(data@),
                None => old(self).streams().axis_pair(old(self).target(), input) is None,
            },
            final(self).prepared_from(old(self), input.reads_wheel(), input.reads_motion()),
    {
        self.prepare_input(input);
        self.axis_pair_now(input)
    }

    fn axis_reading_now(&self, axis: &SingleAxis) -> (r: i64)
        requires
            self.covers(axis.reads_wheel(), axis.reads_motion()),
        ensures
            r == self.streams().axis_reading(self.target(), *axis),
            -LIMIT <= r <= LIMIT,
    {
        proof {
            use_type_invariant(self);
        }
        match axis.axis_type {
            AxisType::Gamepad(axis_type) => match self.gamepad {
                Some(gamepad) => {
                    let reading = gamepad_axis_reading(
                        self.input_streams.gamepad_axes,
                        GamepadAxis { gamepad, axis_type },
                    );
                    match reading {
                        Some(bits) => scalar_from_bits(bits),
                        None => 0,
                    }
                },
                None => 0,
            },
            AxisType::MouseWheel(MouseWheelAxisType::X) => self.total_mouse_wheel_movement.0,
            AxisType::MouseWheel(MouseWheelAxisType::Y) => self.total_mouse_wheel_movement.1,
            AxisType::MouseMotion(MouseMotionAxisType::X) => self.total_mouse_movement.0,
            AxisType::MouseMotion(MouseMotionAxisType::Y) => self.total_mouse_movement.1,
        }
    }

    fn axis_value_now(&self, axis: &SingleAxis) -> (r: i64)
        requires
            self.covers(axis.reads_wheel(), axis.reads_motion()),
        ensures
            r == self.streams().axis_value(self.target(), *axis),
            -LIMIT <= r <= LIMIT,
    {
        let reading = self.axis_reading_now(axis);
        axis.value_in_axis_range(reading)
    }

    fn axis_pressed_now(&self, axis: &SingleAxis) -> (r: bool)
        requires
            self.covers(axis.reads_wheel(), axis.reads_motion()),
        ensures
            r == self.streams().axis_pressed(self.target(), *axis),
    {
        let value = self.axis_value_now(axis);
        axis.is_outside_dead_zone(value)
    }

    fn key_down_now(&self, key: KeyCode) -> (r: bool)
        ensures
            r == self.streams().key_down(key),
    {
        match self.input_streams.keycodes {
            Some(keycodes) => key_pressed(keycodes, key),
            None => false,
        }
    }

    fn button_pressed_now(&self, button: InputKind) -> (r: bool)
        requires
            self.covers(button.reads_wheel(), button.reads_motion()),
        ensures
            r == self.streams().is_button_pressed(self.target(), button),
    {
        proof {
            use_type_invariant(self);
        }
        match button {
            InputKind::DualAxis(axis) => self.axis_pressed_now(&axis.x) || self.axis_pressed_now(
                &axis.y,
            ),
            InputKind::SingleAxis(axis) => self.axis_pressed_now(&axis),
            InputKind::GamepadButton(gamepad_button) => match self.gamepad {
                Some(gamepad) => gamepad_button_pressed(
                    self.input_streams.gamepad_buttons,
                    GamepadButton { gamepad, button_type: gamepad_button },
                ),
                None => false,
            },
            InputKind::Keyboard(keycode) => self.key_down_now(keycode),
            InputKind::KeyLocation(scan_code) => match self.input_streams.scan_codes {
                Some(scan_codes) => scan_code_pressed(scan_codes, scan_code),
                None => false,
            },
            InputKind::Modifier(modifier) => {
                let key_codes = modifier.key_codes();
                let left = self.key_down_now(key_codes[0]);
                let right = self.key_down_now(key_codes[1]);
                left || right
            },
            InputKind::Mouse(mouse_button) => match self.input_streams.mouse_buttons {
                Some(mouse_buttons) => mouse_button_pressed(mouse_buttons, mouse_button),
                None => false,
            },
            InputKind::MouseWheel(mouse_wheel_direction) => mouse_wheel_direction.matches_total(
                self.total_mouse_wheel_movement,
            ),
            InputKind::MouseMotion(mouse_motion_direction) => mouse_motion_direction.matches_total(
                self.total_mouse_movement,
            ),
        }
    }

    fn all_pressed_now(&self, buttons: &Vec<InputKind>) -> (r: bool)
        requires
            self.covers(any_reads_wheel(buttons@), any_reads_motion(buttons@)),
        ensures
            r == self.streams().are_all_pressed(self.target(), buttons@),
    {
        let mut i: usize = 0;
        while i < buttons.len()
            invariant
                i <= buttons.len(),
                self.covers(any_reads_wheel(buttons@), any_reads_motion(buttons@)),
                forall|j: int|
                    0 <= j < i ==> self.streams().is_button_pressed(
                        self.target(),
                        #[trigger] buttons@[j],
                    ),
            decreases buttons.len() - i,
        {
            if !self.button_pressed_now(buttons[i]) {
                return false;
            }
            i = i + 1;
        }
        true
    }

    fn pressed_now(&self, input: &UserInput) -> (r: bool)
        requires
            self.covers(input.reads_wheel(), input.reads_motion()),
        ensures
            r == self.streams().is_pressed(self.target(), input),
    {
        match input {
            UserInput::Single(button) => self.button_pressed_now(*button),
            UserInput::Chord(buttons) => {
                let members = read_chord(buttons);
                self.all_pressed_now(&members)
            },
            UserInput::VirtualDPad(VirtualDPad { up, down, left, right }) => {
                self.button_pressed_now(*up) || self.button_pressed_now(*down)
                    || self.button_pressed_now(*left) || self.button_pressed_now(*right)
            },
            UserInput::VirtualAxis(VirtualAxis { negative, positive }) => {
                self.button_pressed_now(*negative) || self.button_pressed_now(*positive)
            },
        }
    }

    fn button_value_now(&self, button: InputKind) -> (r: i64)
        requires
            self.covers(button.reads_wheel(), button.reads_motion()),
        ensures
            r == button_value(self.streams().is_button_pressed(self.target(), button)),
    {
        if self.button_pressed_now(button) {
            ONE
        } else {
            0
        }
    }

    fn dual_axis_pair_now(&self, dual_axis: &DualAxis) -> (r: (i64, i64))
        requires
            self.covers(
                dual_axis.x.reads_wheel() || dual_axis.y.reads_wheel(),
                dual_axis.x.reads_motion() || dual_axis.y.reads_motion(),
            ),
        ensures
            (r.0 as int, r.1 as int) == self.streams().dual_axis_pair(self.target(), *dual_axis),
            -LIMIT <= r.0 <= LIMIT,
            -LIMIT <= r.1 <= LIMIT,
    {
        let raw_x = self.axis_reading_now(&dual_axis.x);
        let raw_y = self.axis_reading_now(&dual_axis.y);
        if dual_axis.x.is_outside_dead_zone(raw_x) || dual_axis.y.is_outside_dead_zone(raw_y) {
            (dual_axis.x.value_in_axis_range(raw_x), dual_axis.y.value_in_axis_range(raw_y))
        } else {
            (0, 0)
        }
    }

    fn kind_value_now(&self, kind: InputKind) -> (r: i64)
        requires
            self.covers(kind.reads_wheel(), kind.reads_motion()),
        ensures
            r == self.streams().kind_value(self.target(), kind),
            -2 * LIMIT <= r <= 2 * LIMIT,
    {
        match kind {
            InputKind::SingleAxis(single_axis) => self.axis_value_now(&single_axis),
            InputKind::DualAxis(dual_axis) => {
                let pair = self.dual_axis_pair_now(&dual_axis);
                proof {
                    lemma_length_bounded(pair.0 as int, pair.1 as int);
                }
                length(pair.0, pair.1) as i64
            },
            InputKind::GamepadButton(button_type) => match self.gamepad {
                Some(gamepad) => {
                    let reading = gamepad_button_reading(
                        self.input_streams.gamepad_button_axes,
                        GamepadButton { gamepad, button_type },
                    );
                    match reading {
                        Some(bits) => scalar_from_bits(bits),
                        None => self.button_value_now(kind),
                    }
                },
                None => 0,
            },
            _ => self.button_value_now(kind),
        }
    }

    fn dpad_pair_now(&self, dpad: &VirtualDPad) -> (r: (i64, i64))
        requires
            self.covers(
                dpad.up.reads_wheel() || dpad.down.reads_wheel() || dpad.left.reads_wheel()
                    || dpad.right.reads_wheel(),
                dpad.up.reads_motion() || dpad.down.reads_motion() || dpad.left.reads_motion()
                    || dpad.right.reads_motion(),
            ),
        ensures
            (r.0 as int, r.1 as int) == self.streams().dpad_pair(self.target(), *dpad),
            -2 * LIMIT <= r.0 <= 2 * LIMIT,
            -2 * LIMIT <= r.1 <= 2 * LIMIT,
    {
        let right = self.kind_value_now(dpad.right);
        let left = self.kind_value_now(dpad.left);
        let up = self.kind_value_now(dpad.up);
        let down = self.kind_value_now(dpad.down);
        (opposed_value(right, left), opposed_value(up, down))
    }

    fn value_now(&self, input: &UserInput) -> (r: i64)
        requires
            self.covers(input.reads_wheel(), input.reads_motion()),
        ensures
            r == self.streams().value(self.target(), input),
    {
        match input {
            UserInput::Single(kind) => self.kind_value_now(*kind),
            UserInput::VirtualAxis(VirtualAxis { negative, positive }) => {
                let positive_value = self.kind_value_now(*positive);
                let negative_value = self.kind_value_now(*negative);
                opposed_value(positive_value, negative_value)
            },
            UserInput::VirtualDPad(dpad) => {
                let pair = self.dpad_pair_now(dpad);
                proof {
                    lemma_length_bounded(pair.0 as int, pair.1 as int);
                }
                length(pair.0, pair.1) as i64
            },
            UserInput::Chord(_) => {
                if self.pressed_now(input) {
                    ONE
                } else {
                    0
                }
            },
        }
    }

    fn axis_pair_now(&self, input: &UserInput) -> (r: Option<DualAxisData>)
        requires
            self.covers(input.reads_wheel(), input.reads_motion()),
        ensures
            match r {
                Some(data) => self.streams().axis_pair(self.target(), input) == Some(data@),
                None => self.streams().axis_pair(self.target(), input) is None,
            },
    {
        match input {
            UserInput::Single(InputKind::DualAxis(dual_axis)) => {
                let pair = self.dual_axis_pair_now(dual_axis);
                Some(DualAxisData::new(pair.0, pair.1))
            },
            UserInput::VirtualDPad(dpad) => {
                let pair = self.dpad_pair_now(dpad);
                Some(DualAxisData::new(pair.0, pair.1))
            },
            _ => None,
        }
    }
}

/// Taking one more input into account adds what that input reads.
proof fn lemma_inputs_step(inputs: Seq<UserInput>, i: int)
    requires
        0 <= i < inputs.len(),
    ensures
        any_input_reads_wheel(inputs.take(i + 1)) == (any_input_reads_wheel(inputs.take(i))
            || inputs[i].reads_wheel()),
        any_input_reads_motion(inputs.take(i + 1)) == (any_input_reads_motion(inputs.take(i))
            || inputs[i].reads_motion()),
{
    let shorter = inputs.take(i);
    let longer = inputs.take(i + 1);
    assert(longer[i] == inputs[i]);
    assert forall|j: int| 0 <= j < i implies shorter[j] == longer[j] by {}
    if any_input_reads_wheel(shorter) {
        let j = choose|j: int| 0 <= j < shorter.len() && (#[trigger] shorter[j]).reads_wheel();
        assert(longer[j].reads_wheel());
    }
    if any_input_reads_wheel(longer) {
        let j = choose|j: int| 0 <= j < longer.len() && (#[trigger] longer[j]).reads_wheel();
        if j < i {
            assert(shorter[j].reads_wheel());
        }
    }
    if any_input_reads_motion(shorter) {
        let j = choose|j: int| 0 <= j < shorter.len() && (#[trigger] shorter[j]).reads_motion();
        assert(longer[j].reads_motion());
    }
    if any_input_reads_motion(longer) {
        let j = choose|j: int| 0 <= j < longer.len() && (#[trigger] longer[j]).reads_motion();
        if j < i {
            assert(shorter[j].reads_motion());
        }
    }
}

/// Taking one more atomic input into account adds what that input reads.
proof fn lemma_kinds_step(kinds: Seq<InputKind>, i: int)
    requires
        0 <= i < kinds.len(),
    ensures
        any_reads_wheel(kinds.take(i + 1)) == (any_reads_wheel(kinds.take(i))
            || kinds[i].reads_wheel()),
        any_reads_motion(kinds.take(i + 1)) == (any_reads_motion(kinds.take(i))
            || kinds[i].reads_motion()),
{
    let shorter = kinds.take(i);
    let longer = kinds.take(i + 1);
    assert(longer[i] == kinds[i]);
    assert forall|j: int| 0 <= j < i implies shorter[j] == longer[j] by {}
    if any_reads_wheel(shorter) {
        let j = choose|j: int| 0 <= j < shorter.len() && (#[trigger] shorter[j]).reads_wheel();
        assert(longer[j].reads_wheel());
    }
    if any_reads_wheel(longer) {
        let j = choose|j: int| 0 <= j < longer.len() && (#[trigger] longer[j]).reads_wheel();
        if j < i {
            assert(shorter[j].reads_wheel());
        }
    }
    if any_reads_motion(shorter) {
        let j = choose|j: int| 0 <= j < shorter.len() && (#[trigger] shorter[j]).reads_motion();
        assert(longer[j].reads_motion());
    }
    if any_reads_motion(longer) {
        let j = choose|j: int| 0 <= j < longer.len() && (#[trigger] longer[j]).reads_motion();
        if j < i {
            assert(shorter[j].reads_motion());
        }
    }
}

/// Mutable views of the device state, as used to feed synthetic input.
///
/// Every device that `InputStreams` shows is held here too, under the same
/// name; the three event queues that only feeding needs have no counterpart
/// there.
pub struct MutableInputStreams<'a> {
    /// The gamepad buttons that are held down.
    pub gamepad_buttons: &'a mut Input<GamepadButton>,
    /// The analog readings of gamepad buttons.
    pub gamepad_button_axes: &'a mut Axis<GamepadButton>,
    /// The analog readings of gamepad axes.
    pub gamepad_axes: &'a mut Axis<GamepadAxis>,
    /// The connected gamepads.
    pub gamepads: &'a mut Gamepads,
    /// The queue that synthetic gamepad input goes to.
    pub gamepad_events: MutableGamepadEvents<'a>,
    /// The keys that are held down.
    pub keycodes: &'a mut Input<KeyCode>,
    /// The key locations that are held down.
    pub scan_codes: &'a mut Input<ScanCode>,
    /// The queue that synthetic keyboard input goes to.
    pub keyboard_events: MutableKeyboardEvents<'a>,
    /// The mouse buttons that are held down.
    pub mouse_buttons: &'a mut Input<MouseButton>,
    /// The queue that synthetic mouse button input goes to.
    pub mouse_button_events: MutableMouseButtonEvents<'a>,
    /// The mouse wheel events of this cycle.
    pub mouse_wheel: MutableMouseWheelEvents<'a>,
    /// The mouse motion events of this cycle.
    pub mouse_motion: MutableMouseMotionEvents<'a>,
    /// The gamepad that queries are pinned to, if any.
    pub associated_gamepad: Option<Gamepad>,
}

impl<'a> MutableInputStreams<'a> {
    /// The read-only views of the same devices: each device under its name,
    /// every optional view present, the same gamepad pinned.
    pub open spec fn shared(self) -> InputStreams<'a> {
        InputStreams {
            gamepad_buttons: &*self.gamepad_buttons,
            gamepad_button_axes: &*self.gamepad_button_axes,
            gamepad_axes: &*self.gamepad_axes,
            gamepads: &*self.gamepads,
            keycodes: Some(&*self.keycodes),
            scan_codes: Some(&*self.scan_codes),
            mouse_buttons: Some(&*self.mouse_buttons),
            mouse_wheel: Some(shared_wheel_events(self.mouse_wheel)),
            mouse_motion: shared_motion_events(self.mouse_motion),
            associated_gamepad: self.associated_gamepad,
        }
    }

    /// Picks the gamepad that queries are aimed at: the pinned one if one is
    /// pinned, else the first that the collection of connected gamepads hands
    /// out, if any.
    pub fn guess_gamepad(&self) -> (r: Option<Gamepad>)
        ensures
            self.shared().may_resolve_to(r),
    {
        match self.associated_gamepad {
            Some(gamepad) => Some(gamepad),
            None => first_gamepad(&*self.gamepads),
        }
    }
}

impl<'a> FromSpecImpl<MutableInputStreams<'a>> for InputStreams<'a> {
    open spec fn obeys_from_spec() -> bool {
        true
    }

    open spec fn from_spec(mutable_streams: MutableInputStreams<'a>) -> Self {
        mutable_streams.shared()
    }
}

impl<'a> From<MutableInputStreams<'a>> for InputStreams<'a> {
    /// Gives up the mutable views for read-only views of the same devices.
    fn from(mutable_streams: MutableInputStreams<'a>) -> (r: Self) {
        InputStreams {
            gamepad_buttons: mutable_streams.gamepad_buttons,
            gamepad_button_axes: mutable_streams.gamepad_button_axes,
            gamepad_axes: mutable_streams.gamepad_axes,
            gamepads: mutable_streams.gamepads,
            keycodes: Some(mutable_streams.keycodes),
            scan_codes: Some(mutable_streams.scan_codes),
            mouse_buttons: Some(mutable_streams.mouse_buttons),
            mouse_wheel: Some(into_wheel_events(mutable_streams.mouse_wheel)),
            mouse_motion: into_motion_events(mutable_streams.mouse_motion),
            associated_gamepad: mutable_streams.associated_gamepad,
        }
    }
}

impl<'a> FromSpecImpl<&'a MutableInputStreams<'a>> for InputStreams<'a> {
    open spec fn obeys_from_spec() -> bool {
        true
    }

    open spec fn from_spec(mutable_streams: &'a MutableInputStreams<'a>) -> Self {
        mutable_streams.shared()
    }
}

impl<'a> From<&'a MutableInputStreams<'a>> for InputStreams<'a> {
    /// Borrows read-only views of the devices behind the mutable views.
    fn from(mutable_streams: &'a MutableInputStreams<'a>) -> (r: Self) {
        InputStreams {
            gamepad_buttons: mutable_streams.gamepad_buttons,
            gamepad_button_axes: mutable_streams.gamepad_button_axes,
            gamepad_axes: mutable_streams.gamepad_axes,
            gamepads: mutable_streams.gamepads,
            keycodes: Some(mutable_streams.keycodes),
            scan_codes: Some(mutable_streams.scan_codes),
            mouse_buttons: Some(mutable_streams.mouse_buttons),
            mouse_wheel: Some(share_wheel_events(&mutable_streams.mouse_wheel)),
            mouse_motion: share_motion_events(&mutable_streams.mouse_motion),
            associated_gamepad: mutable_streams.associated_gamepad,
        }
    }
}

} // verus!
