use input_mapper::input::binding::Context;
use input_mapper::input::gamepad::{
    GamepadAxis, GamepadAxisEvent, GamepadAxisPair, GamepadButton, GamepadButtonEvent,
};
use input_mapper::input::keyboard::Key;
use input_mapper::input::mouse::{MouseAxis, MouseButton, MouseDelta};
use input_mapper::input::state::{classify, Transition};
use input_mapper::input::values::FULL_VALUE;
use input_mapper::InputMapper;

const SPACE: u32 = 32;

#[test]
fn unset_reads_zero() {
    let im = InputMapper::new();
    for ctx in [Context(0), Context(1), Context(42)] {
        for name in ["jump", "fire", ""] {
            assert_eq!(im.get_current_value(ctx, &name.to_string()), 0);
            assert_eq!(im.get_previous_value(ctx, &name.to_string()), 0);
        }
    }
}

#[test]
fn binding_overwrite_keeps_second_action() {
    let ctx = Context(0);
    let mut im = InputMapper::new();
    im.bind_keyboard_key_press(ctx, Key(SPACE), "jump".to_string());
    im.bind_keyboard_key_press(ctx, Key(SPACE), "fire".to_string());
    let held = vec![Key(SPACE)];
    let released: Vec<Key> = Vec::new();
    im.keyboard_key_press_system(ctx, &held, &released);
    assert_eq!(im.get_current_value(ctx, &"fire".to_string()), FULL_VALUE);
    assert_eq!(im.get_current_value(ctx, &"jump".to_string()), 0);
}

#[test]
fn unbind_is_noop_when_absent_and_removes_when_present() {
    let ctx = Context(0);
    let mut im = InputMapper::new();
    // absent: nothing to remove, nothing breaks
    im.unbind_keyboard_key_press(ctx, Key(SPACE));
    im.bind_keyboard_key_press(ctx, Key(SPACE), "jump".to_string());
    im.unbind_keyboard_key_press(ctx, Key(SPACE));
    let held = vec![Key(SPACE)];
    let released: Vec<Key> = Vec::new();
    im.keyboard_key_press_system(ctx, &held, &released);
    assert_eq!(im.get_current_value(ctx, &"jump".to_string()), 0);
}

#[test]
fn context_scoping_drives_only_active_context() {
    let ctx_a = Context(0);
    let ctx_b = Context(1);
    let mut im = InputMapper::new();
    im.bind_keyboard_key_press(ctx_a, Key(SPACE), "jump".to_string());
    im.bind_keyboard_key_press(ctx_b, Key(SPACE), "swim_up".to_string());
    let held = vec![Key(SPACE)];
    let released: Vec<Key> = Vec::new();

    im.keyboard_key_press_system(ctx_a, &held, &released);
    assert_eq!(im.get_current_value(ctx_a, &"jump".to_string()), FULL_VALUE);
    assert_eq!(im.get_current_value(ctx_a, &"swim_up".to_string()), 0);
    assert_eq!(im.get_current_value(ctx_b, &"swim_up".to_string()), 0);
    assert_eq!(im.get_current_value(ctx_b, &"jump".to_string()), 0);

    // flip the active context between frames
    im.event_cycle();
    im.keyboard_key_press_system(ctx_b, &held, &released);
    assert_eq!(im.get_current_value(ctx_b, &"swim_up".to_string()), FULL_VALUE);
    assert_eq!(im.get_current_value(ctx_b, &"jump".to_string()), 0);
    assert_eq!(im.get_current_value(ctx_a, &"jump".to_string()), 0);
}

#[test]
fn axis_sign_exclusivity() {
    let ctx = Context(0);
    let mut im = InputMapper::new();
    im.bind_mouse_axis_move(ctx, MouseAxis::PositiveX, "look_right".to_string());
    im.bind_mouse_axis_move(ctx, MouseAxis::NegativeX, "look_left".to_string());

    im.mouse_axis_move_system(ctx, Some(MouseDelta { dx: 300, dy: 0 }));
    assert_eq!(im.get_current_value(ctx, &"look_right".to_string()), 300);
    assert_eq!(im.get_current_value(ctx, &"look_left".to_string()), 0);

    im.mouse_axis_move_system(ctx, Some(MouseDelta { dx: 0, dy: 0 }));
    assert_eq!(im.get_current_value(ctx, &"look_right".to_string()), 0);
    assert_eq!(im.get_current_value(ctx, &"look_left".to_string()), 0);

    im.mouse_axis_move_system(ctx, Some(MouseDelta { dx: -450, dy: 0 }));
    assert_eq!(im.get_current_value(ctx, &"look_left".to_string()), 450);
    assert_eq!(im.get_current_value(ctx, &"look_right".to_string()), 0);
}

#[test]
fn mouse_axis_clamps_magnitude() {
    let ctx = Context(0);
    let mut im = InputMapper::new();
    im.bind_mouse_axis_move(ctx, MouseAxis::PositiveY, "look_down".to_string());
    im.bind_mouse_axis_move(ctx, MouseAxis::NegativeY, "look_up".to_string());
    im.mouse_axis_move_system(ctx, Some(MouseDelta { dx: 0, dy: 5000 }));
    assert_eq!(im.get_current_value(ctx, &"look_down".to_string()), FULL_VALUE);
    im.mouse_axis_move_system(ctx, Some(MouseDelta { dx: 0, dy: -7000 }));
    assert_eq!(im.get_current_value(ctx, &"look_up".to_string()), FULL_VALUE);
    assert_eq!(im.get_current_value(ctx, &"look_down".to_string()), 0);
}

#[test]
fn mouse_axis_clears_without_motion() {
    let ctx = Context(0);
    let mut im = InputMapper::new();
    im.bind_mouse_axis_move(ctx, MouseAxis::PositiveX, "look_right".to_string());
    im.mouse_axis_move_system(ctx, Some(MouseDelta { dx: 250, dy: 0 }));
    assert_eq!(im.get_current_value(ctx, &"look_right".to_string()), 250);
    im.mouse_axis_move_system(ctx, None);
    assert_eq!(im.get_current_value(ctx, &"look_right".to_string()), 0);
}

#[test]
fn mouse_button_binding_samples_like_keys() {
    let ctx = Context(0);
    let mut im = InputMapper::new();
    im.bind_mouse_button_press(ctx, MouseButton(1), "shoot".to_string());
    let held = vec![MouseButton(1)];
    let released: Vec<MouseButton> = Vec::new();
    im.mouse_button_press_system(ctx, &held, &released);
    assert_eq!(im.get_current_value(ctx, &"shoot".to_string()), FULL_VALUE);
    im.event_cycle();
    let held2: Vec<MouseButton> = Vec::new();
    let released2 = vec![MouseButton(1)];
    im.mouse_button_press_system(ctx, &held2, &released2);
    assert_eq!(im.get_current_value(ctx, &"shoot".to_string()), 0);
}

#[test]
fn gamepad_button_reports_analog_value_clamped() {
    let ctx = Context(0);
    let mut im = InputMapper::new();
    im.bind_gamepad_button_press(ctx, GamepadButton(7), "throttle".to_string());
    let events = vec![GamepadButtonEvent { button: GamepadButton(7), value: 500 }];
    im.gamepad_button_press_system(ctx, &events);
    assert_eq!(im.get_current_value(ctx, &"throttle".to_string()), 500);

    let events = vec![GamepadButtonEvent { button: GamepadButton(7), value: 1500 }];
    im.gamepad_button_press_system(ctx, &events);
    assert_eq!(im.get_current_value(ctx, &"throttle".to_string()), FULL_VALUE);

    let events = vec![GamepadButtonEvent { button: GamepadButton(7), value: -3 }];
    im.gamepad_button_press_system(ctx, &events);
    assert_eq!(im.get_current_value(ctx, &"throttle".to_string()), 0);

    // an unbound button is silently ignored
    let events = vec![GamepadButtonEvent { button: GamepadButton(9), value: 800 }];
    im.gamepad_button_press_system(ctx, &events);
    assert_eq!(im.get_current_value(ctx, &"throttle".to_string()), 0);
}

#[test]
fn gamepad_axis_feeds_negative_half_axis() {
    let ctx = Context(0);
    let mut im = InputMapper::new();
    im.bind_gamepad_axis_move(ctx, GamepadAxis::PositiveLeftStickX, "right".to_string());
    im.bind_gamepad_axis_move(ctx, GamepadAxis::NegativeLeftStickX, "left".to_string());

    let events = vec![GamepadAxisEvent { axis: GamepadAxisPair::LeftStickX, value: -700 }];
    im.gamepad_axis_move_system(ctx, &events);
    assert_eq!(im.get_current_value(ctx, &"left".to_string()), 700);
    assert_eq!(im.get_current_value(ctx, &"right".to_string()), 0);

    let events = vec![GamepadAxisEvent { axis: GamepadAxisPair::LeftStickX, value: 700 }];
    im.gamepad_axis_move_system(ctx, &events);
    assert_eq!(im.get_current_value(ctx, &"right".to_string()), 700);
    assert_eq!(im.get_current_value(ctx, &"left".to_string()), 0);

    let events = vec![GamepadAxisEvent { axis: GamepadAxisPair::LeftStickX, value: 0 }];
    im.gamepad_axis_move_system(ctx, &events);
    assert_eq!(im.get_current_value(ctx, &"right".to_string()), 0);
    assert_eq!(im.get_current_value(ctx, &"left".to_string()), 0);
}

#[test]
fn gamepad_other_axis_uses_index() {
    let ctx = Context(0);
    let mut im = InputMapper::new();
    im.bind_gamepad_axis_move(ctx, GamepadAxis::PositiveOtherAxis(3), "lean".to_string());
    let events = vec![GamepadAxisEvent { axis: GamepadAxisPair::OtherAxis(3), value: 400 }];
    im.gamepad_axis_move_system(ctx, &events);
    assert_eq!(im.get_current_value(ctx, &"lean".to_string()), 400);
    // a different index does not reach the binding
    let mut im2 = InputMapper::new();
    im2.bind_gamepad_axis_move(ctx, GamepadAxis::PositiveOtherAxis(3), "lean".to_string());
    let events = vec![GamepadAxisEvent { axis: GamepadAxisPair::OtherAxis(4), value: 400 }];
    im2.gamepad_axis_move_system(ctx, &events);
    assert_eq!(im2.get_current_value(ctx, &"lean".to_string()), 0);
}

#[test]
fn several_inputs_drive_one_action() {
    let ctx = Context(0);
    let mut im = InputMapper::new();
    im.bind_keyboard_key_press(ctx, Key(SPACE), "jump".to_string());
    im.bind_keyboard_key_press(ctx, Key(75), "jump".to_string());
    let held = vec![Key(75)];
    let released: Vec<Key> = Vec::new();
    im.keyboard_key_press_system(ctx, &held, &released);
    assert_eq!(im.get_current_value(ctx, &"jump".to_string()), FULL_VALUE);
}

#[test]
fn builder_chaining_binds_all() {
    let ctx = Context(0);
    let mut im = InputMapper::new();
    im.bind_keyboard_key_press(ctx, Key(SPACE), "jump".to_string())
        .bind_mouse_button_press(ctx, MouseButton(0), "shoot".to_string())
        .bind_gamepad_button_press(ctx, GamepadButton(0), "jump".to_string());
    let held = vec![Key(SPACE)];
    let released: Vec<Key> = Vec::new();
    im.keyboard_key_press_system(ctx, &held, &released);
    let mheld = vec![MouseButton(0)];
    let mreleased: Vec<MouseButton> = Vec::new();
    im.mouse_button_press_system(ctx, &mheld, &mreleased);
    assert_eq!(im.get_current_value(ctx, &"jump".to_string()), FULL_VALUE);
    assert_eq!(im.get_current_value(ctx, &"shoot".to_string()), FULL_VALUE);
}

#[test]
fn classifier_matches_value_pairs() {
    assert_eq!(classify(0, 0), Transition::Idle);
    assert_eq!(classify(0, 5), Transition::Started);
    assert_eq!(classify(5, 5), Transition::Continuing);
    assert_eq!(classify(5, 0), Transition::Finished);
    assert_eq!(classify(0, FULL_VALUE), Transition::Started);
}

#[test]
fn transition_queries_follow_promotion() {
    let ctx = Context(0);
    let mut im = InputMapper::new();
    im.bind_keyboard_key_press(ctx, Key(SPACE), "jump".to_string());
    let held = vec![Key(SPACE)];
    let released: Vec<Key> = Vec::new();
    im.keyboard_key_press_system(ctx, &held, &released);
    assert!(im.is_started(ctx, &"jump".to_string()));
    assert!(im.is_active(ctx, &"jump".to_string()));
    assert!(!im.is_continuing(ctx, &"jump".to_string()));
    assert!(!im.is_finished(ctx, &"jump".to_string()));

    im.event_cycle();
    // promoted: previous holds the press, current is cleared
    assert_eq!(im.get_previous_value(ctx, &"jump".to_string()), FULL_VALUE);
    assert_eq!(im.get_current_value(ctx, &"jump".to_string()), 0);
    assert!(im.is_finished(ctx, &"jump".to_string()));
}
