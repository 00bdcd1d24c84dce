use input_mapper::input::binding::Context;
use input_mapper::input::keyboard::Key;
use input_mapper::input::mouse::{MouseAxis, MouseDelta};
use input_mapper::input::snapshot::InputSnapshot;
use input_mapper::input::values::FULL_VALUE;
use input_mapper::InputMapper;

const SPACE: u32 = 32;

fn held_space() -> InputSnapshot {
    let mut s = InputSnapshot::empty();
    s.held_keys.push(Key(SPACE));
    s
}

fn released_space() -> InputSnapshot {
    let mut s = InputSnapshot::empty();
    s.just_released_keys.push(Key(SPACE));
    s
}

#[test]
fn button_edge_sequence() {
    let ctx = Context(0);
    let mut im = InputMapper::new();
    im.bind_keyboard_key_press(ctx, Key(SPACE), "jump".to_string());

    // frame 1: the press starts the action
    let ev = im.frame(ctx, &held_space());
    assert_eq!(ev.started.len(), 1);
    assert_eq!(ev.started[0].0, "jump");
    assert_eq!(ev.started[0].1, FULL_VALUE);
    assert_eq!(ev.active.len(), 1);
    assert_eq!(ev.active[0].0, "jump");
    assert_eq!(ev.active[0].1, FULL_VALUE);
    assert_eq!(ev.continuing.len(), 0);
    assert_eq!(ev.finished.len(), 0);

    // frames 2 and 3: holding continues the action every frame
    for _ in 0..2 {
        let ev = im.frame(ctx, &held_space());
        assert_eq!(ev.continuing.len(), 1);
        assert_eq!(ev.continuing[0].0, "jump");
        assert_eq!(ev.continuing[0].1, FULL_VALUE);
        assert_eq!(ev.active.len(), 1);
        assert_eq!(ev.active[0].0, "jump");
        assert_eq!(ev.active[0].1, FULL_VALUE);
        assert_eq!(ev.started.len(), 0);
        assert_eq!(ev.finished.len(), 0);
    }

    // frame 4: the release finishes the action; no Active for value 0
    let ev = im.frame(ctx, &released_space());
    assert_eq!(ev.finished.len(), 1);
    assert_eq!(ev.finished[0].0, "jump");
    assert_eq!(ev.active.len(), 0);
    assert_eq!(ev.started.len(), 0);
    assert_eq!(ev.continuing.len(), 0);

    // frame 5: back to rest, nothing fires
    let ev = im.frame(ctx, &InputSnapshot::empty());
    assert_eq!(ev.active.len(), 0);
    assert_eq!(ev.started.len(), 0);
    assert_eq!(ev.continuing.len(), 0);
    assert_eq!(ev.finished.len(), 0);
}

#[test]
fn end_to_end_scenario() {
    let ctx = Context(0);
    let mut im = InputMapper::new();
    im.bind_keyboard_key_press(ctx, Key(SPACE), "jump".to_string());

    let ev = im.frame(ctx, &held_space());
    assert_eq!(ev.started.len(), 1);
    assert_eq!(ev.started[0].0, "jump");
    assert_eq!(ev.started[0].1, FULL_VALUE);
    assert_eq!(ev.active.len(), 1);
    assert_eq!(ev.active[0].0, "jump");
    assert_eq!(ev.active[0].1, FULL_VALUE);

    let ev = im.frame(ctx, &held_space());
    assert_eq!(ev.continuing.len(), 1);
    assert_eq!(ev.continuing[0].0, "jump");
    assert_eq!(ev.continuing[0].1, FULL_VALUE);
    assert_eq!(ev.active.len(), 1);

    let ev = im.frame(ctx, &released_space());
    assert_eq!(ev.finished.len(), 1);
    assert_eq!(ev.finished[0].0, "jump");
    assert_eq!(ev.active.len(), 0);
    assert_eq!(ev.started.len(), 0);
    assert_eq!(ev.continuing.len(), 0);
}

#[test]
fn quiet_frames_stay_silent() {
    let ctx = Context(0);
    let mut im = InputMapper::new();
    im.bind_keyboard_key_press(ctx, Key(SPACE), "jump".to_string());
    im.bind_mouse_axis_move(ctx, MouseAxis::PositiveX, "look_right".to_string());
    im.bind_mouse_axis_move(ctx, MouseAxis::NegativeX, "look_left".to_string());

    for _ in 0..5 {
        let ev = im.frame(ctx, &InputSnapshot::empty());
        assert_eq!(ev.active.len(), 0);
        assert_eq!(ev.started.len(), 0);
        assert_eq!(ev.continuing.len(), 0);
        assert_eq!(ev.finished.len(), 0);
        for name in ["jump", "look_right", "look_left"] {
            assert_eq!(im.get_current_value(ctx, &name.to_string()), 0);
            assert_eq!(im.get_previous_value(ctx, &name.to_string()), 0);
        }
    }
}

#[test]
fn axis_motion_finishes_on_still_frame() {
    let ctx = Context(0);
    let mut im = InputMapper::new();
    im.bind_mouse_axis_move(ctx, MouseAxis::PositiveX, "look_right".to_string());

    let mut s = InputSnapshot::empty();
    s.mouse_motion = Some(MouseDelta { dx: 200, dy: 0 });
    let ev = im.frame(ctx, &s);
    assert_eq!(ev.started.len(), 1);
    assert_eq!(ev.started[0].0, "look_right");
    assert_eq!(ev.started[0].1, 200);

    // no motion: the explicit clear drives the finish transition
    let ev = im.frame(ctx, &InputSnapshot::empty());
    assert_eq!(ev.finished.len(), 1);
    assert_eq!(ev.finished[0].0, "look_right");
    assert_eq!(ev.active.len(), 0);
}

#[test]
fn frame_promotes_and_clears() {
    let ctx = Context(0);
    let mut im = InputMapper::new();
    im.bind_keyboard_key_press(ctx, Key(SPACE), "jump".to_string());
    im.frame(ctx, &held_space());
    assert_eq!(im.get_previous_value(ctx, &"jump".to_string()), FULL_VALUE);
    assert_eq!(im.get_current_value(ctx, &"jump".to_string()), 0);
}
