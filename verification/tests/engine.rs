use bevy::app::App;
use bevy::ecs::event::Events;
use bevy::input::gamepad::{
    Gamepad, GamepadAxis, GamepadAxisType, GamepadButton, GamepadButtonType, GamepadConnection,
    GamepadConnectionEvent, GamepadEvent, GamepadInfo, Gamepads,
};
use bevy::input::keyboard::{KeyCode, ScanCode};
use bevy::input::mouse::{MouseButton, MouseMotion, MouseScrollUnit, MouseWheel};
use bevy::input::{Axis, Input, InputPlugin};
use bevy::math::Vec2;
use input_streams::axislike::{
    AxisType, DualAxis, MouseMotionAxisType, MouseWheelAxisType, SingleAxis, VirtualAxis,
    VirtualDPad,
};
use input_streams::buttonlike::{MouseMotionDirection, MouseWheelDirection};
use input_streams::devices::{MouseMotionEvents, MouseWheelEvents};
use input_streams::scalar::{scalar_from_bits, ONE};
use input_streams::user_input::{InputKind, Modifier, UserInput};
use input_streams::{InputStreams, PreparedInputStreams};
use petitset::PetitSet;

struct Devices {
    gamepad_buttons: Input<GamepadButton>,
    gamepad_button_axes: Axis<GamepadButton>,
    gamepad_axes: Axis<GamepadAxis>,
    gamepads: Gamepads,
    keycodes: Input<KeyCode>,
    scan_codes: Input<ScanCode>,
    mouse_buttons: Input<MouseButton>,
    mouse_wheel: Events<MouseWheel>,
    mouse_motion: Events<MouseMotion>,
}

impl Devices {
    fn new() -> Self {
        Devices {
            gamepad_buttons: Input::default(),
            gamepad_button_axes: Axis::default(),
            gamepad_axes: Axis::default(),
            gamepads: Gamepads::default(),
            keycodes: Input::default(),
            scan_codes: Input::default(),
            mouse_buttons: Input::default(),
            mouse_wheel: Events::default(),
            mouse_motion: Events::default(),
        }
    }

    fn streams(&self, gamepad: Option<Gamepad>) -> InputStreams<'_> {
        InputStreams {
            gamepad_buttons: &self.gamepad_buttons,
            gamepad_button_axes: &self.gamepad_button_axes,
            gamepad_axes: &self.gamepad_axes,
            gamepads: &self.gamepads,
            keycodes: Some(&self.keycodes),
            scan_codes: Some(&self.scan_codes),
            mouse_buttons: Some(&self.mouse_buttons),
            mouse_wheel: Some(MouseWheelEvents { events: &self.mouse_wheel }),
            mouse_motion: MouseMotionEvents { events: &self.mouse_motion },
            associated_gamepad: gamepad,
        }
    }

    fn bare_streams(&self, gamepad: Option<Gamepad>) -> InputStreams<'_> {
        InputStreams {
            gamepad_buttons: &self.gamepad_buttons,
            gamepad_button_axes: &self.gamepad_button_axes,
            gamepad_axes: &self.gamepad_axes,
            gamepads: &self.gamepads,
            keycodes: None,
            scan_codes: None,
            mouse_buttons: None,
            mouse_wheel: None,
            mouse_motion: MouseMotionEvents { events: &self.mouse_motion },
            associated_gamepad: gamepad,
        }
    }
}

fn scalar(value: f32) -> i64 {
    scalar_from_bits(value.to_bits())
}

fn axis(axis_type: AxisType, threshold: f32) -> SingleAxis {
    SingleAxis { axis_type, positive_low: scalar(threshold), negative_low: scalar(-threshold) }
}

fn wheel_y() -> SingleAxis {
    axis(AxisType::MouseWheel(MouseWheelAxisType::Y), 0.0)
}

fn wheel_x() -> SingleAxis {
    axis(AxisType::MouseWheel(MouseWheelAxisType::X), 0.0)
}

fn key(code: KeyCode) -> InputKind {
    InputKind::Keyboard(code)
}

fn chord(kinds: &[InputKind]) -> PetitSet<InputKind, 8> {
    let mut set = PetitSet::new();
    for kind in kinds {
        set.insert(*kind);
    }
    set
}

fn connect(app: &mut App, id: usize) {
    let info = GamepadInfo { name: format!("pad {}", id) };
    app.world.send_event(GamepadEvent::Connection(GamepadConnectionEvent::new(
        Gamepad::new(id),
        GamepadConnection::Connected(info),
    )));
    app.update();
}

#[test]
fn modifier_key_triggered_by_either_input() {
    let mut devices = Devices::new();
    {
        let streams = devices.streams(None);
        let mut prepared = PreparedInputStreams::from(&streams);
        assert!(!prepared.button_pressed(InputKind::Modifier(Modifier::Control)));
    }

    devices.keycodes.press(KeyCode::LControl);
    {
        let streams = devices.streams(None);
        let mut prepared = PreparedInputStreams::from(&streams);
        assert!(prepared.button_pressed(InputKind::Modifier(Modifier::Control)));
    }

    devices.keycodes.reset_all();
    {
        let streams = devices.streams(None);
        let mut prepared = PreparedInputStreams::from(&streams);
        assert!(!prepared.button_pressed(InputKind::Modifier(Modifier::Control)));
    }

    devices.keycodes.press(KeyCode::RControl);
    {
        let streams = devices.streams(None);
        let mut prepared = PreparedInputStreams::from(&streams);
        assert!(prepared.button_pressed(InputKind::Modifier(Modifier::Control)));
    }
}

#[test]
fn each_modifier_has_its_two_keys() {
    assert_eq!(Modifier::Alt.key_codes(), [KeyCode::LAlt, KeyCode::RAlt]);
    assert_eq!(Modifier::Control.key_codes(), [KeyCode::LControl, KeyCode::RControl]);
    assert_eq!(Modifier::Shift.key_codes(), [KeyCode::LShift, KeyCode::RShift]);
    assert_eq!(Modifier::Win.key_codes(), [KeyCode::LWin, KeyCode::RWin]);
}

#[test]
fn modifier_ignores_other_keys() {
    let mut devices = Devices::new();
    devices.keycodes.press(KeyCode::LShift);
    devices.keycodes.press(KeyCode::A);
    let streams = devices.streams(None);
    let mut prepared = PreparedInputStreams::from(&streams);
    assert!(!prepared.button_pressed(InputKind::Modifier(Modifier::Control)));
    assert!(!prepared.button_pressed(InputKind::Modifier(Modifier::Alt)));
    assert!(prepared.button_pressed(InputKind::Modifier(Modifier::Shift)));
}

#[test]
fn keyboard_key_without_keyboard_is_not_pressed() {
    let mut devices = Devices::new();
    devices.keycodes.press(KeyCode::K);
    devices.scan_codes.press(ScanCode(30));
    devices.mouse_buttons.press(MouseButton::Left);
    let streams = devices.bare_streams(None);
    let mut prepared = PreparedInputStreams::from(&streams);
    assert!(!prepared.input_pressed(&UserInput::Single(key(KeyCode::K))));
    assert!(!prepared.button_pressed(InputKind::Modifier(Modifier::Control)));
    assert!(!prepared.button_pressed(InputKind::KeyLocation(ScanCode(30))));
    assert!(!prepared.button_pressed(InputKind::Mouse(MouseButton::Left)));
    assert_eq!(prepared.input_value(&UserInput::Single(key(KeyCode::K))), 0);
}

#[test]
fn pressed_keys_buttons_and_locations_are_seen() {
    let mut devices = Devices::new();
    devices.keycodes.press(KeyCode::K);
    devices.scan_codes.press(ScanCode(30));
    devices.mouse_buttons.press(MouseButton::Other(4));
    let streams = devices.streams(None);
    let mut prepared = PreparedInputStreams::from(&streams);
    assert!(prepared.button_pressed(key(KeyCode::K)));
    assert!(!prepared.button_pressed(key(KeyCode::J)));
    assert!(prepared.button_pressed(InputKind::KeyLocation(ScanCode(30))));
    assert!(!prepared.button_pressed(InputKind::KeyLocation(ScanCode(31))));
    assert!(prepared.button_pressed(InputKind::Mouse(MouseButton::Other(4))));
    assert!(!prepared.button_pressed(InputKind::Mouse(MouseButton::Left)));
    assert_eq!(prepared.input_value(&UserInput::Single(key(KeyCode::K))), ONE);
    assert_eq!(prepared.input_value(&UserInput::Single(key(KeyCode::J))), 0);
}

#[test]
fn wheel_ticks_of_a_line_and_two_pixels() {
    let mut devices = Devices::new();
    devices.mouse_wheel.send(MouseWheel { unit: MouseScrollUnit::Line, x: 0.0, y: 1.0 });
    devices.mouse_wheel.send(MouseWheel { unit: MouseScrollUnit::Pixel, x: 0.0, y: 2.0 });
    let streams = devices.streams(None);
    let mut prepared = PreparedInputStreams::from(&streams);
    let up = UserInput::Single(InputKind::MouseWheel(MouseWheelDirection::Up));
    assert!(prepared.input_pressed(&up));
    assert_eq!(prepared.input_value(&UserInput::Single(InputKind::SingleAxis(wheel_y()))), 16 * ONE);
    assert_eq!(prepared.input_value(&UserInput::Single(InputKind::SingleAxis(wheel_x()))), 0);
    assert!(!prepared.button_pressed(InputKind::MouseWheel(MouseWheelDirection::Down)));
    assert!(!prepared.button_pressed(InputKind::MouseWheel(MouseWheelDirection::Left)));
    assert!(!prepared.button_pressed(InputKind::MouseWheel(MouseWheelDirection::Right)));
}

#[test]
fn wheel_events_are_summed_once() {
    let mut devices = Devices::new();
    devices.mouse_wheel.send(MouseWheel { unit: MouseScrollUnit::Pixel, x: -3.0, y: 5.0 });
    devices.mouse_wheel.send(MouseWheel { unit: MouseScrollUnit::Line, x: 0.0, y: -1.0 });
    let streams = devices.streams(None);
    let mut prepared = PreparedInputStreams::from(&streams);
    let up = UserInput::Single(InputKind::MouseWheel(MouseWheelDirection::Up));
    let left = UserInput::Single(InputKind::MouseWheel(MouseWheelDirection::Left));
    assert_eq!(prepared.input_value(&up), 0);
    assert_eq!(prepared.input_value(&left), ONE);
    let y = UserInput::Single(InputKind::SingleAxis(wheel_y()));
    let x = UserInput::Single(InputKind::SingleAxis(wheel_x()));
    assert_eq!(prepared.input_value(&y), -9 * ONE);
    assert_eq!(prepared.input_value(&x), -3 * ONE);
    assert_eq!(prepared.input_value(&y), -9 * ONE);
    assert_eq!(prepared.input_value(&left), ONE);
    assert_eq!(prepared.input_value(&x), -3 * ONE);
}

#[test]
fn wheel_events_of_two_updates_are_read_oldest_first() {
    let mut devices = Devices::new();
    devices.mouse_wheel.send(MouseWheel { unit: MouseScrollUnit::Pixel, x: 1.0, y: 0.0 });
    devices.mouse_wheel.update();
    devices.mouse_wheel.send(MouseWheel { unit: MouseScrollUnit::Pixel, x: 2.0, y: 0.0 });
    let streams = devices.streams(None);
    let mut prepared = PreparedInputStreams::from(&streams);
    assert_eq!(prepared.input_value(&UserInput::Single(InputKind::SingleAxis(wheel_x()))), 3 * ONE);
}

#[test]
fn wheel_without_wheel_view_reads_zero() {
    let mut devices = Devices::new();
    devices.mouse_wheel.send(MouseWheel { unit: MouseScrollUnit::Line, x: 3.0, y: 1.0 });
    let streams = devices.bare_streams(None);
    let mut prepared = PreparedInputStreams::from(&streams);
    assert!(!prepared.button_pressed(InputKind::MouseWheel(MouseWheelDirection::Up)));
    assert!(!prepared.button_pressed(InputKind::MouseWheel(MouseWheelDirection::Right)));
    assert_eq!(prepared.input_value(&UserInput::Single(InputKind::SingleAxis(wheel_y()))), 0);
    assert!(!prepared.button_pressed(InputKind::SingleAxis(wheel_y())));
}

#[test]
fn mouse_motion_directions_and_axes() {
    let mut devices = Devices::new();
    devices.mouse_motion.send(MouseMotion { delta: Vec2::new(4.0, -1.0) });
    devices.mouse_motion.send(MouseMotion { delta: Vec2::new(-1.5, -1.0) });
    let streams = devices.bare_streams(None);
    let mut prepared = PreparedInputStreams::from(&streams);
    assert!(prepared.button_pressed(InputKind::MouseMotion(MouseMotionDirection::Right)));
    assert!(prepared.button_pressed(InputKind::MouseMotion(MouseMotionDirection::Down)));
    assert!(!prepared.button_pressed(InputKind::MouseMotion(MouseMotionDirection::Left)));
    assert!(!prepared.button_pressed(InputKind::MouseMotion(MouseMotionDirection::Up)));
    let x = axis(AxisType::MouseMotion(MouseMotionAxisType::X), 1.0);
    let y = axis(AxisType::MouseMotion(MouseMotionAxisType::Y), 2.0);
    assert_eq!(prepared.input_value(&UserInput::Single(InputKind::SingleAxis(x))), 5 * ONE / 2);
    assert_eq!(prepared.input_value(&UserInput::Single(InputKind::SingleAxis(y))), 0);
    assert!(prepared.button_pressed(InputKind::SingleAxis(x)));
    assert!(!prepared.button_pressed(InputKind::SingleAxis(y)));
    let both = UserInput::Single(InputKind::DualAxis(DualAxis { x, y }));
    let pair = prepared.input_axis_pair(&both).unwrap();
    assert_eq!((pair.x(), pair.y()), (5 * ONE / 2, 0));
    assert_eq!(prepared.input_value(&both), 5 * ONE / 2);
}

#[test]
fn chord_needs_every_member() {
    let mut devices = Devices::new();
    devices.keycodes.press(KeyCode::A);
    devices.keycodes.press(KeyCode::B);
    let streams = devices.streams(None);
    let mut prepared = PreparedInputStreams::from(&streams);
    let both = chord(&[key(KeyCode::A), key(KeyCode::B)]);
    let three = chord(&[key(KeyCode::A), key(KeyCode::B), key(KeyCode::C)]);
    assert!(prepared.all_buttons_pressed(&both));
    assert!(!prepared.all_buttons_pressed(&three));
    assert!(prepared.input_pressed(&UserInput::Chord(both.clone())));
    assert!(!prepared.input_pressed(&UserInput::Chord(three.clone())));
    assert_eq!(prepared.input_value(&UserInput::Chord(both)), ONE);
    assert_eq!(prepared.input_value(&UserInput::Chord(three.clone())), 0);
    assert!(prepared.input_axis_pair(&UserInput::Chord(three)).is_none());
}

#[test]
fn empty_chord_is_pressed() {
    let devices = Devices::new();
    let streams = devices.bare_streams(None);
    let mut prepared = PreparedInputStreams::from(&streams);
    let empty: PetitSet<InputKind, 8> = PetitSet::new();
    assert!(prepared.all_buttons_pressed(&empty));
    assert!(prepared.input_pressed(&UserInput::Chord(empty.clone())));
    assert_eq!(prepared.input_value(&UserInput::Chord(empty)), ONE);
}

#[test]
fn chord_with_a_wheel_direction() {
    let mut devices = Devices::new();
    devices.keycodes.press(KeyCode::LControl);
    devices.mouse_wheel.send(MouseWheel { unit: MouseScrollUnit::Line, x: 0.0, y: 1.0 });
    let streams = devices.streams(None);
    let mut prepared = PreparedInputStreams::from(&streams);
    let zoom = chord(&[
        InputKind::Modifier(Modifier::Control),
        InputKind::MouseWheel(MouseWheelDirection::Up),
    ]);
    let unzoom = chord(&[
        InputKind::Modifier(Modifier::Control),
        InputKind::MouseWheel(MouseWheelDirection::Down),
    ]);
    assert!(prepared.input_pressed(&UserInput::Chord(zoom)));
    assert!(!prepared.input_pressed(&UserInput::Chord(unzoom)));
}

#[test]
fn virtual_dpad_is_pressed_when_any_button_is() {
    let dpad = VirtualDPad {
        up: key(KeyCode::W),
        down: key(KeyCode::S),
        left: key(KeyCode::A),
        right: key(KeyCode::D),
    };
    let input = UserInput::VirtualDPad(dpad);
    for pressed in [KeyCode::W, KeyCode::S, KeyCode::A, KeyCode::D] {
        let mut devices = Devices::new();
        devices.keycodes.press(pressed);
        let streams = devices.streams(None);
        let mut prepared = PreparedInputStreams::from(&streams);
        assert!(prepared.input_pressed(&input));
        assert_eq!(prepared.input_value(&input), ONE);
    }
    let mut devices = Devices::new();
    devices.keycodes.press(KeyCode::Q);
    let streams = devices.streams(None);
    let mut prepared = PreparedInputStreams::from(&streams);
    assert!(!prepared.input_pressed(&input));
    assert_eq!(prepared.input_value(&input), 0);
}

#[test]
fn virtual_dpad_axis_pair() {
    let dpad = VirtualDPad {
        up: key(KeyCode::W),
        down: key(KeyCode::S),
        left: key(KeyCode::A),
        right: key(KeyCode::D),
    };
    let input = UserInput::VirtualDPad(dpad);
    let mut devices = Devices::new();
    devices.keycodes.press(KeyCode::W);
    devices.keycodes.press(KeyCode::A);
    {
        let streams = devices.streams(None);
        let mut prepared = PreparedInputStreams::from(&streams);
        let pair = prepared.input_axis_pair(&input).unwrap();
        assert_eq!((pair.x(), pair.y()), (-ONE, ONE));
        assert_eq!(prepared.input_value(&input), 6074000999);
    }
    devices.keycodes.press(KeyCode::S);
    devices.keycodes.press(KeyCode::D);
    {
        let streams = devices.streams(None);
        let mut prepared = PreparedInputStreams::from(&streams);
        let pair = prepared.input_axis_pair(&input).unwrap();
        assert_eq!((pair.x(), pair.y()), (0, 0));
        assert_eq!(prepared.input_value(&input), 0);
        assert!(prepared.input_pressed(&input));
    }
}

#[test]
fn virtual_axis_of_two_keys() {
    let input = UserInput::VirtualAxis(VirtualAxis {
        negative: key(KeyCode::Left),
        positive: key(KeyCode::Right),
    });
    let cases = [(false, false, 0, false), (true, false, -ONE, true), (false, true, ONE, true), (true, true, 0, true)];
    for (negative, positive, value, pressed) in cases {
        let mut devices = Devices::new();
        if negative {
            devices.keycodes.press(KeyCode::Left);
        }
        if positive {
            devices.keycodes.press(KeyCode::Right);
        }
        let streams = devices.streams(None);
        let mut prepared = PreparedInputStreams::from(&streams);
        assert_eq!(prepared.input_value(&input), value);
        assert_eq!(prepared.input_pressed(&input), pressed);
        assert!(prepared.input_axis_pair(&input).is_none());
    }
}

#[test]
fn virtual_axis_of_analog_inputs() {
    let mut devices = Devices::new();
    let pad = Gamepad::new(0);
    devices.gamepad_axes.set(GamepadAxis::new(pad, GamepadAxisType::LeftStickX), -0.5);
    devices.gamepad_axes.set(GamepadAxis::new(pad, GamepadAxisType::RightStickX), 0.25);
    let streams = devices.streams(Some(pad));
    let mut prepared = PreparedInputStreams::from(&streams);
    let input = UserInput::VirtualAxis(VirtualAxis {
        negative: InputKind::SingleAxis(axis(AxisType::Gamepad(GamepadAxisType::LeftStickX), 0.1)),
        positive: InputKind::SingleAxis(axis(AxisType::Gamepad(GamepadAxisType::RightStickX), 0.1)),
    });
    assert_eq!(prepared.input_value(&input), ONE / 4 - ONE / 2);
}

#[test]
fn dead_zone_of_a_gamepad_axis() {
    let pad = Gamepad::new(2);
    let stick = axis(AxisType::Gamepad(GamepadAxisType::LeftStickX), 0.1);
    let cases = [
        (0.0, 0, false),
        (0.05, 0, false),
        (-0.05, 0, false),
        (0.1, 0, false),
        (-0.1, 0, false),
        (0.11, 472446400, true),
        (-0.11, -472446400, true),
        (0.5, ONE / 2, true),
        (0.10000001, 429496768, true),
        (-0.10000001, -429496768, true),
        (-1.0, -ONE, true),
        (1.0, ONE, true),
    ];
    for (raw, value, pressed) in cases {
        let mut devices = Devices::new();
        devices.gamepad_axes.set(GamepadAxis::new(pad, GamepadAxisType::LeftStickX), raw);
        let streams = devices.streams(Some(pad));
        let mut prepared = PreparedInputStreams::from(&streams);
        assert_eq!(prepared.input_value(&UserInput::Single(InputKind::SingleAxis(stick))), value);
        assert_eq!(prepared.button_pressed(InputKind::SingleAxis(stick)), pressed);
    }
}

#[test]
fn dead_zone_that_leaves_zero_out() {
    let pad = Gamepad::new(0);
    let stick = SingleAxis {
        axis_type: AxisType::Gamepad(GamepadAxisType::LeftStickY),
        positive_low: scalar(0.5),
        negative_low: scalar(0.25),
    };
    let mut devices = Devices::new();
    devices.gamepad_axes.set(GamepadAxis::new(pad, GamepadAxisType::LeftStickY), 0.375);
    let streams = devices.streams(Some(pad));
    let mut prepared = PreparedInputStreams::from(&streams);
    assert_eq!(prepared.input_value(&UserInput::Single(InputKind::SingleAxis(stick))), 0);
    assert!(prepared.button_pressed(InputKind::SingleAxis(stick)));
}

#[test]
fn crossed_thresholds_leave_no_dead_zone() {
    let pad = Gamepad::new(0);
    let stick = SingleAxis {
        axis_type: AxisType::Gamepad(GamepadAxisType::LeftStickY),
        positive_low: scalar(-0.5),
        negative_low: scalar(0.5),
    };
    for raw in [-1.0f32, -0.5, -0.25, 0.0, 0.25, 0.5, 1.0] {
        let mut devices = Devices::new();
        devices.gamepad_axes.set(GamepadAxis::new(pad, GamepadAxisType::LeftStickY), raw);
        let streams = devices.streams(Some(pad));
        let mut prepared = PreparedInputStreams::from(&streams);
        let value = prepared.input_value(&UserInput::Single(InputKind::SingleAxis(stick)));
        assert_eq!(value, scalar(raw));
        assert!(prepared.button_pressed(InputKind::SingleAxis(stick)));
    }
}

#[test]
fn dual_axis_with_one_axis_inside_its_dead_zone() {
    let pad = Gamepad::new(0);
    let mut devices = Devices::new();
    devices.gamepad_axes.set(GamepadAxis::new(pad, GamepadAxisType::LeftStickX), 0.05);
    devices.gamepad_axes.set(GamepadAxis::new(pad, GamepadAxisType::LeftStickY), 0.5);
    let streams = devices.streams(Some(pad));
    let mut prepared = PreparedInputStreams::from(&streams);
    let stick = DualAxis {
        x: axis(AxisType::Gamepad(GamepadAxisType::LeftStickX), 0.1),
        y: axis(AxisType::Gamepad(GamepadAxisType::LeftStickY), 0.1),
    };
    let input = UserInput::Single(InputKind::DualAxis(stick));
    let pair = prepared.input_axis_pair(&input).unwrap();
    assert_eq!((pair.x(), pair.y()), (0, ONE / 2));
    assert_eq!(prepared.input_value(&input), ONE / 2);
    assert!(prepared.input_pressed(&input));
}

#[test]
fn dual_axis_at_rest_and_deflected() {
    let pad = Gamepad::new(0);
    let stick = DualAxis {
        x: axis(AxisType::Gamepad(GamepadAxisType::RightStickX), 0.1),
        y: axis(AxisType::Gamepad(GamepadAxisType::RightStickY), 0.1),
    };
    let input = UserInput::Single(InputKind::DualAxis(stick));
    let mut devices = Devices::new();
    devices.gamepad_axes.set(GamepadAxis::new(pad, GamepadAxisType::RightStickX), 0.05);
    devices.gamepad_axes.set(GamepadAxis::new(pad, GamepadAxisType::RightStickY), -0.05);
    {
        let streams = devices.streams(Some(pad));
        let mut prepared = PreparedInputStreams::from(&streams);
        let pair = prepared.input_axis_pair(&input).unwrap();
        assert_eq!((pair.x(), pair.y()), (0, 0));
        assert_eq!(prepared.input_value(&input), 0);
        assert!(!prepared.input_pressed(&input));
    }
    devices.gamepad_axes.set(GamepadAxis::new(pad, GamepadAxisType::RightStickX), -0.75);
    devices.gamepad_axes.set(GamepadAxis::new(pad, GamepadAxisType::RightStickY), 1.0);
    {
        let streams = devices.streams(Some(pad));
        let mut prepared = PreparedInputStreams::from(&streams);
        let pair = prepared.input_axis_pair(&input).unwrap();
        assert_eq!((pair.x(), pair.y()), (-3 * ONE / 4, ONE));
        assert_eq!(prepared.input_value(&input), 5 * ONE / 4);
    }
}

#[test]
fn axis_pair_is_none_for_other_inputs() {
    let devices = Devices::new();
    let streams = devices.streams(None);
    let mut prepared = PreparedInputStreams::from(&streams);
    assert!(prepared.input_axis_pair(&UserInput::Single(key(KeyCode::A))).is_none());
    assert!(prepared.input_axis_pair(&UserInput::Single(InputKind::SingleAxis(wheel_y()))).is_none());
    let opposed = UserInput::VirtualAxis(VirtualAxis { negative: key(KeyCode::A), positive: key(KeyCode::D) });
    assert!(prepared.input_axis_pair(&opposed).is_none());
}

#[test]
fn gamepad_button_on_the_pinned_gamepad() {
    let mut devices = Devices::new();
    let first = Gamepad::new(0);
    let second = Gamepad::new(1);
    devices.gamepad_buttons.press(GamepadButton::new(second, GamepadButtonType::South));
    devices.gamepad_buttons.press(GamepadButton::new(first, GamepadButtonType::North));
    let south = InputKind::GamepadButton(GamepadButtonType::South);
    let north = InputKind::GamepadButton(GamepadButtonType::North);
    {
        let streams = devices.streams(Some(second));
        assert_eq!(streams.guess_gamepad(), Some(second));
        let mut prepared = PreparedInputStreams::from(&streams);
        assert_eq!(prepared.gamepad(), Some(second));
        assert!(prepared.button_pressed(south));
        assert!(!prepared.button_pressed(north));
        assert_eq!(prepared.input_value(&UserInput::Single(south)), ONE);
        assert_eq!(prepared.input_value(&UserInput::Single(north)), 0);
    }
    {
        let streams = devices.streams(Some(first));
        let mut prepared = PreparedInputStreams::from(&streams);
        assert!(!prepared.button_pressed(south));
        assert!(prepared.button_pressed(north));
    }
}

#[test]
fn gamepad_button_prefers_its_analog_reading() {
    let mut devices = Devices::new();
    let pad = Gamepad::new(0);
    let trigger = GamepadButton::new(pad, GamepadButtonType::LeftTrigger2);
    devices.gamepad_button_axes.set(trigger, 0.75);
    let streams = devices.streams(Some(pad));
    let mut prepared = PreparedInputStreams::from(&streams);
    let input = UserInput::Single(InputKind::GamepadButton(GamepadButtonType::LeftTrigger2));
    assert_eq!(prepared.input_value(&input), 3 * ONE / 4);
    assert!(!prepared.input_pressed(&input));
    let other = UserInput::Single(InputKind::GamepadButton(GamepadButtonType::RightTrigger2));
    assert_eq!(prepared.input_value(&other), 0);
}

#[test]
fn no_gamepad_reads_neutral() {
    let mut devices = Devices::new();
    let pad = Gamepad::new(0);
    devices.gamepad_buttons.press(GamepadButton::new(pad, GamepadButtonType::South));
    devices.gamepad_button_axes.set(GamepadButton::new(pad, GamepadButtonType::South), 1.0);
    devices.gamepad_axes.set(GamepadAxis::new(pad, GamepadAxisType::LeftStickX), 1.0);
    let streams = devices.streams(None);
    assert_eq!(streams.guess_gamepad(), None);
    let mut prepared = PreparedInputStreams::from(&streams);
    assert_eq!(prepared.gamepad(), None);
    let south = InputKind::GamepadButton(GamepadButtonType::South);
    let stick = InputKind::SingleAxis(axis(AxisType::Gamepad(GamepadAxisType::LeftStickX), 0.1));
    assert!(!prepared.button_pressed(south));
    assert_eq!(prepared.input_value(&UserInput::Single(south)), 0);
    assert!(!prepared.button_pressed(stick));
    assert_eq!(prepared.input_value(&UserInput::Single(stick)), 0);
}

#[test]
fn the_only_connected_gamepad_is_guessed() {
    let mut app = App::new();
    app.add_plugin(InputPlugin);
    connect(&mut app, 7);
    let pad = Gamepad::new(7);
    let mut devices = Devices::new();
    devices.gamepad_buttons.press(GamepadButton::new(pad, GamepadButtonType::East));
    let mut streams = devices.streams(None);
    streams.gamepads = app.world.resource::<Gamepads>();
    assert_eq!(streams.guess_gamepad(), Some(pad));
    let mut prepared = PreparedInputStreams::from(&streams);
    assert_eq!(prepared.gamepad(), Some(pad));
    assert!(prepared.button_pressed(InputKind::GamepadButton(GamepadButtonType::East)));
}

#[test]
fn a_pinned_gamepad_wins_over_connected_ones() {
    let mut app = App::new();
    app.add_plugin(InputPlugin);
    connect(&mut app, 0);
    connect(&mut app, 1);
    let devices = Devices::new();
    let mut streams = devices.streams(Some(Gamepad::new(5)));
    streams.gamepads = app.world.resource::<Gamepads>();
    assert_eq!(streams.guess_gamepad(), Some(Gamepad::new(5)));
    let mut unpinned = devices.streams(None);
    unpinned.gamepads = app.world.resource::<Gamepads>();
    let guess = unpinned.guess_gamepad();
    assert!(guess == Some(Gamepad::new(0)) || guess == Some(Gamepad::new(1)));
}

#[test]
fn any_pressed_over_a_set_of_inputs() {
    let mut devices = Devices::new();
    devices.keycodes.press(KeyCode::Space);
    devices.mouse_motion.send(MouseMotion { delta: Vec2::new(0.0, 3.0) });
    let streams = devices.streams(None);
    let mut prepared = PreparedInputStreams::from(&streams);
    let mut idle: PetitSet<UserInput, 16> = PetitSet::new();
    idle.insert(UserInput::Single(key(KeyCode::A)));
    idle.insert(UserInput::Chord(chord(&[key(KeyCode::Space), key(KeyCode::A)])));
    idle.insert(UserInput::Single(InputKind::MouseMotion(MouseMotionDirection::Down)));
    assert!(!prepared.any_pressed(&idle));
    let mut jump: PetitSet<UserInput, 16> = PetitSet::new();
    jump.insert(UserInput::Single(key(KeyCode::A)));
    jump.insert(UserInput::Single(key(KeyCode::Space)));
    assert!(prepared.any_pressed(&jump));
    let mut look: PetitSet<UserInput, 16> = PetitSet::new();
    look.insert(UserInput::Single(InputKind::MouseMotion(MouseMotionDirection::Up)));
    assert!(prepared.any_pressed(&look));
    let empty: PetitSet<UserInput, 16> = PetitSet::new();
    assert!(!prepared.any_pressed(&empty));
}

#[test]
fn prepared_inputs_answer_like_unprepared_ones() {
    let mut devices = Devices::new();
    devices.mouse_wheel.send(MouseWheel { unit: MouseScrollUnit::Line, x: 1.0, y: 0.0 });
    devices.mouse_motion.send(MouseMotion { delta: Vec2::new(-2.0, 0.0) });
    let streams = devices.streams(None);
    let right = UserInput::Single(InputKind::MouseWheel(MouseWheelDirection::Right));
    let left = UserInput::Single(InputKind::MouseMotion(MouseMotionDirection::Left));
    let inputs = vec![
        UserInput::Single(InputKind::MouseWheel(MouseWheelDirection::Right)),
        UserInput::Single(InputKind::MouseMotion(MouseMotionDirection::Left)),
    ];
    let mut eager = PreparedInputStreams::from_inputs(&streams, &inputs);
    let mut lazy = PreparedInputStreams::from(&streams);
    assert!(eager.input_pressed(&right));
    assert!(lazy.input_pressed(&right));
    assert!(eager.input_pressed(&left));
    assert!(lazy.input_pressed(&left));
    let mut later = PreparedInputStreams::from(&streams);
    later.prepare_inputs(&inputs);
    later.prepare_input(&right);
    later.prepare_input_kind(&InputKind::MouseMotion(MouseMotionDirection::Left));
    assert_eq!(later.input_value(&UserInput::Single(InputKind::SingleAxis(wheel_x()))), 14 * ONE);
    assert!(std::ptr::eq(later.input_streams(), &streams));
}
