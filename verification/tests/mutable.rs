use bevy::ecs::event::Events;
use bevy::input::gamepad::{
    Gamepad, GamepadAxis, GamepadAxisType, GamepadButton, GamepadButtonType, GamepadEvent,
    Gamepads,
};
use bevy::input::keyboard::{KeyCode, KeyboardInput, ScanCode};
use bevy::input::mouse::{
    MouseButton, MouseButtonInput, MouseMotion, MouseScrollUnit, MouseWheel,
};
use bevy::input::{Axis, Input};
use bevy::math::Vec2;
use input_streams::axislike::{AxisType, SingleAxis};
use input_streams::buttonlike::{MouseMotionDirection, MouseWheelDirection};
use input_streams::devices::{
    MutableGamepadEvents, MutableKeyboardEvents, MutableMouseButtonEvents,
    MutableMouseMotionEvents, MutableMouseWheelEvents,
};
use input_streams::input_streams::MutableInputStreams;
use input_streams::scalar::ONE;
use input_streams::user_input::{InputKind, Modifier, UserInput};
use input_streams::{InputStreams, PreparedInputStreams};

struct Owned {
    gamepad_buttons: Input<GamepadButton>,
    gamepad_button_axes: Axis<GamepadButton>,
    gamepad_axes: Axis<GamepadAxis>,
    gamepads: Gamepads,
    gamepad_events: Events<GamepadEvent>,
    keycodes: Input<KeyCode>,
    scan_codes: Input<ScanCode>,
    keyboard_events: Events<KeyboardInput>,
    mouse_buttons: Input<MouseButton>,
    mouse_button_events: Events<MouseButtonInput>,
    mouse_wheel: Events<MouseWheel>,
    mouse_motion: Events<MouseMotion>,
}

impl Owned {
    fn new() -> Self {
        Owned {
            gamepad_buttons: Input::default(),
            gamepad_button_axes: Axis::default(),
            gamepad_axes: Axis::default(),
            gamepads: Gamepads::default(),
            gamepad_events: Events::default(),
            keycodes: Input::default(),
            scan_codes: Input::default(),
            keyboard_events: Events::default(),
            mouse_buttons: Input::default(),
            mouse_button_events: Events::default(),
            mouse_wheel: Events::default(),
            mouse_motion: Events::default(),
        }
    }

    fn mutable(&mut self, gamepad: Option<Gamepad>) -> MutableInputStreams<'_> {
        MutableInputStreams {
            gamepad_buttons: &mut self.gamepad_buttons,
            gamepad_button_axes: &mut self.gamepad_button_axes,
            gamepad_axes: &mut self.gamepad_axes,
            gamepads: &mut self.gamepads,
            gamepad_events: MutableGamepadEvents { events: &mut self.gamepad_events },
            keycodes: &mut self.keycodes,
            scan_codes: &mut self.scan_codes,
            keyboard_events: MutableKeyboardEvents { events: &mut self.keyboard_events },
            mouse_buttons: &mut self.mouse_buttons,
            mouse_button_events: MutableMouseButtonEvents { events: &mut self.mouse_button_events },
            mouse_wheel: MutableMouseWheelEvents { events: &mut self.mouse_wheel },
            mouse_motion: MutableMouseMotionEvents { events: &mut self.mouse_motion },
            associated_gamepad: gamepad,
        }
    }
}

fn check_all_devices(streams: &InputStreams, pad: Gamepad) {
    assert_eq!(streams.associated_gamepad, Some(pad));
    assert_eq!(streams.guess_gamepad(), Some(pad));
    let mut prepared = PreparedInputStreams::from(streams);
    assert!(prepared.button_pressed(InputKind::Keyboard(KeyCode::F5)));
    assert!(prepared.button_pressed(InputKind::Modifier(Modifier::Alt)));
    assert!(prepared.button_pressed(InputKind::KeyLocation(ScanCode(17))));
    assert!(prepared.button_pressed(InputKind::Mouse(MouseButton::Middle)));
    assert!(prepared.button_pressed(InputKind::GamepadButton(GamepadButtonType::West)));
    assert!(!prepared.button_pressed(InputKind::GamepadButton(GamepadButtonType::East)));
    assert!(prepared.button_pressed(InputKind::MouseWheel(MouseWheelDirection::Down)));
    assert!(prepared.button_pressed(InputKind::MouseMotion(MouseMotionDirection::Left)));
    let stick = SingleAxis {
        axis_type: AxisType::Gamepad(GamepadAxisType::RightStickY),
        positive_low: 0,
        negative_low: 0,
    };
    assert_eq!(prepared.input_value(&UserInput::Single(InputKind::SingleAxis(stick))), -ONE / 2);
    let trigger = UserInput::Single(InputKind::GamepadButton(GamepadButtonType::RightTrigger2));
    assert_eq!(prepared.input_value(&trigger), ONE / 4);
}

fn fill(mutable: &mut MutableInputStreams, pad: Gamepad) {
    mutable.keycodes.press(KeyCode::F5);
    mutable.keycodes.press(KeyCode::RAlt);
    mutable.scan_codes.press(ScanCode(17));
    mutable.mouse_buttons.press(MouseButton::Middle);
    mutable.gamepad_buttons.press(GamepadButton::new(pad, GamepadButtonType::West));
    mutable.gamepad_axes.set(GamepadAxis::new(pad, GamepadAxisType::RightStickY), -0.5);
    mutable
        .gamepad_button_axes
        .set(GamepadButton::new(pad, GamepadButtonType::RightTrigger2), 0.25);
    mutable.mouse_wheel.events.send(MouseWheel { unit: MouseScrollUnit::Line, x: 0.0, y: -1.0 });
    mutable.mouse_motion.events.send(MouseMotion { delta: Vec2::new(-8.0, 0.0) });
}

#[test]
fn borrowed_views_show_every_device() {
    let pad = Gamepad::new(3);
    let mut owned = Owned::new();
    let mut mutable = owned.mutable(Some(pad));
    fill(&mut mutable, pad);
    assert_eq!(mutable.guess_gamepad(), Some(pad));
    let streams = InputStreams::from(&mutable);
    assert!(streams.keycodes.is_some());
    assert!(streams.scan_codes.is_some());
    assert!(streams.mouse_buttons.is_some());
    assert!(streams.mouse_wheel.is_some());
    check_all_devices(&streams, pad);
}

#[test]
fn converted_views_show_every_device() {
    let pad = Gamepad::new(4);
    let mut owned = Owned::new();
    let mut mutable = owned.mutable(Some(pad));
    fill(&mut mutable, pad);
    let streams: InputStreams = mutable.into();
    assert!(streams.keycodes.is_some());
    assert!(streams.scan_codes.is_some());
    assert!(streams.mouse_buttons.is_some());
    assert!(streams.mouse_wheel.is_some());
    check_all_devices(&streams, pad);
}

#[test]
fn mutable_views_without_gamepads_guess_none() {
    let mut owned = Owned::new();
    let mutable = owned.mutable(None);
    assert_eq!(mutable.guess_gamepad(), None);
    let streams = InputStreams::from(&mutable);
    assert_eq!(streams.associated_gamepad, None);
    assert_eq!(streams.guess_gamepad(), None);
}
