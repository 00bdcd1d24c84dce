//! The per-frame raw input snapshot the host hands to the core.
//!
//! The host's device-polling layer fills one of these each frame; the
//! core never polls devices itself.

use vstd::prelude::*;

use crate::input::gamepad::{GamepadAxisEvent, GamepadButtonEvent};
use crate::input::keyboard::Key;
use crate::input::mouse::{MouseButton, MouseDelta};

verus! {

/// One frame's raw input state.
pub struct InputSnapshot {
    /// Keys held down this frame.
    pub held_keys: Vec<Key>,
    /// Keys released during this frame.
    pub just_released_keys: Vec<Key>,
    /// Mouse buttons held down this frame.
    pub held_mouse_buttons: Vec<MouseButton>,
    /// Mouse buttons released during this frame.
    pub just_released_mouse_buttons: Vec<MouseButton>,
    /// The accumulated mouse movement, or `None` when no motion event
    /// arrived this frame.
    pub mouse_motion: Option<MouseDelta>,
    /// The gamepad button changes reported this frame.
    pub gamepad_button_events: Vec<GamepadButtonEvent>,
    /// The gamepad axis changes reported this frame.
    pub gamepad_axis_events: Vec<GamepadAxisEvent>,
}

/// The abstract value of a snapshot.
pub struct SnapshotView {
    /// Keys held down this frame.
    pub held_keys: Seq<Key>,
    /// Keys released during this frame.
    pub just_released_keys: Seq<Key>,
    /// Mouse buttons held down this frame.
    pub held_mouse_buttons: Seq<MouseButton>,
    /// Mouse buttons released during this frame.
    pub just_released_mouse_buttons: Seq<MouseButton>,
    /// The accumulated mouse movement, if any arrived.
    pub mouse_motion: Option<MouseDelta>,
    /// The gamepad button changes reported this frame.
    pub gamepad_button_events: Seq<GamepadButtonEvent>,
    /// The gamepad axis changes reported this frame.
    pub gamepad_axis_events: Seq<GamepadAxisEvent>,
}

impl SnapshotView {
    /// A frame in which no input arrived at all.
    pub open spec fn quiet(self) -> bool {
        &&& self.held_keys.len() == 0
        &&& self.just_released_keys.len() == 0
        &&& self.held_mouse_buttons.len() == 0
        &&& self.just_released_mouse_buttons.len() == 0
        &&& self.mouse_motion is None
        &&& self.gamepad_button_events.len() == 0
        &&& self.gamepad_axis_events.len() == 0
    }
}

impl View for InputSnapshot {
    type V = SnapshotView;

    open spec fn view(&self) -> SnapshotView {
        SnapshotView {
            held_keys: self.held_keys@,
            just_released_keys: self.just_released_keys@,
            held_mouse_buttons: self.held_mouse_buttons@,
            just_released_mouse_buttons: self.just_released_mouse_buttons@,
            mouse_motion: self.mouse_motion,
            gamepad_button_events: self.gamepad_button_events@,
            gamepad_axis_events: self.gamepad_axis_events@,
        }
    }
}

impl InputSnapshot {
    /// A snapshot of a frame with no input.
    pub fn empty() -> (r: Self)
        ensures
            r@.quiet(),
    {
        InputSnapshot {
            held_keys: Vec::new(),
            just_released_keys: Vec::new(),
            held_mouse_buttons: Vec::new(),
            just_released_mouse_buttons: Vec::new(),
            mouse_motion: None,
            gamepad_button_events: Vec::new(),
            gamepad_axis_events: Vec::new(),
        }
    }
}

} // verus!
