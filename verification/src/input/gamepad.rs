//! Gamepad buttons, gamepad half-axes and the gamepad samplers.

use vstd::prelude::*;

use crate::input::axis::{half_axis_write, write_pair};
use crate::input::binding::{Context, PhysicalInput};
use crate::input::values::{
    clamp_magnitude, clamp_magnitude_value, clamp_signed, clamp_signed_value, lookup_or_zero,
};
use crate::InputMapper;

verus! {

/// An opaque gamepad button id, as reported by the host's input layer.
#[derive(Clone, Copy, PartialEq, Eq, Structural, Hash, Debug)]
pub struct GamepadButton(pub u32);

/// One signed direction of a gamepad analog axis, modeled as an
/// independent bindable unit.
#[derive(Clone, Copy, PartialEq, Eq, Structural, Hash, Debug)]
pub enum GamepadAxis {
    /// Left stick X axis, positive movement.
    PositiveLeftStickX,
    /// Left stick X axis, negative movement.
    NegativeLeftStickX,
    /// Left stick Y axis, positive movement.
    PositiveLeftStickY,
    /// Left stick Y axis, negative movement.
    NegativeLeftStickY,
    /// Right stick X axis, positive movement.
    PositiveRightStickX,
    /// Right stick X axis, negative movement.
    NegativeRightStickX,
    /// Right stick Y axis, positive movement.
    PositiveRightStickY,
    /// Right stick Y axis, negative movement.
    NegativeRightStickY,
    /// Left Z trigger, positive values.
    PositiveLeftZ,
    /// Left Z trigger, negative values.
    NegativeLeftZ,
    /// Right Z trigger, positive values.
    PositiveRightZ,
    /// Right Z trigger, negative values.
    NegativeRightZ,
    /// Positive direction of an additional axis, by index.
    PositiveOtherAxis(u8),
    /// Negative direction of an additional axis, by index.
    NegativeOtherAxis(u8),
}

/// A whole signed gamepad axis; each one decomposes into the positive
/// and the negative half-axis of [`GamepadAxis`].
#[derive(Clone, Copy, PartialEq, Eq, Structural, Hash, Debug)]
pub enum GamepadAxisPair {
    /// Left stick, horizontal.
    LeftStickX,
    /// Left stick, vertical.
    LeftStickY,
    /// Left Z trigger.
    LeftZ,
    /// Right stick, horizontal.
    RightStickX,
    /// Right stick, vertical.
    RightStickY,
    /// Right Z trigger.
    RightZ,
    /// An additional axis, by index.
    OtherAxis(u8),
}

/// A change reported for one gamepad axis this frame, in fixed-point
/// units (1000 stands for a full deflection of 1.0).
#[derive(Clone, Copy, PartialEq, Eq, Structural, Debug)]
pub struct GamepadAxisEvent {
    /// The axis that moved.
    pub axis: GamepadAxisPair,
    /// The signed axis value.
    pub value: i32,
}

/// A change reported for one gamepad button this frame, in fixed-point
/// units (1000 stands for a fully pressed button; triggers may report
/// intermediate values).
#[derive(Clone, Copy, PartialEq, Eq, Structural, Debug)]
pub struct GamepadButtonEvent {
    /// The button whose value changed.
    pub button: GamepadButton,
    /// The button's value; 0 means released.
    pub value: i32,
}

/// The positive and the negative half-axis of a whole axis.
pub open spec fn gamepad_pair(axis: GamepadAxisPair) -> (GamepadAxis, GamepadAxis) {
    match axis {
        GamepadAxisPair::LeftStickX => (
            GamepadAxis::PositiveLeftStickX,
            GamepadAxis::NegativeLeftStickX,
        ),
        GamepadAxisPair::LeftStickY => (
            GamepadAxis::PositiveLeftStickY,
            GamepadAxis::NegativeLeftStickY,
        ),
        GamepadAxisPair::LeftZ => (GamepadAxis::PositiveLeftZ, GamepadAxis::NegativeLeftZ),
        GamepadAxisPair::RightStickX => (
            GamepadAxis::PositiveRightStickX,
            GamepadAxis::NegativeRightStickX,
        ),
        GamepadAxisPair::RightStickY => (
            GamepadAxis::PositiveRightStickY,
            GamepadAxis::NegativeRightStickY,
        ),
        GamepadAxisPair::RightZ => (GamepadAxis::PositiveRightZ, GamepadAxis::NegativeRightZ),
        GamepadAxisPair::OtherAxis(v) => (
            GamepadAxis::PositiveOtherAxis(v),
            GamepadAxis::NegativeOtherAxis(v),
        ),
    }
}

/// Splits a whole axis into its positive and negative half-axis.
pub fn gamepad_pair_of(axis: GamepadAxisPair) -> (r: (GamepadAxis, GamepadAxis))
    ensures
        r == gamepad_pair(axis),
{
    match axis {
        GamepadAxisPair::LeftStickX => (
            GamepadAxis::PositiveLeftStickX,
            GamepadAxis::NegativeLeftStickX,
        ),
        GamepadAxisPair::LeftStickY => (
            GamepadAxis::PositiveLeftStickY,
            GamepadAxis::NegativeLeftStickY,
        ),
        GamepadAxisPair::LeftZ => (GamepadAxis::PositiveLeftZ, GamepadAxis::NegativeLeftZ),
        GamepadAxisPair::RightStickX => (
            GamepadAxis::PositiveRightStickX,
            GamepadAxis::NegativeRightStickX,
        ),
        GamepadAxisPair::RightStickY => (
            GamepadAxis::PositiveRightStickY,
            GamepadAxis::NegativeRightStickY,
        ),
        GamepadAxisPair::RightZ => (GamepadAxis::PositiveRightZ, GamepadAxis::NegativeRightZ),
        GamepadAxisPair::OtherAxis(v) => (
            GamepadAxis::PositiveOtherAxis(v),
            GamepadAxis::NegativeOtherAxis(v),
        ),
    }
}

/// The action values after folding this frame's gamepad axis events:
/// each event feeds its axis's half-axis bindings under `state`, the
/// moved direction receiving the clamped magnitude and the opposite
/// direction 0.
pub open spec fn gamepad_axis_sampled(
    bindings: Map<(Context, PhysicalInput), Seq<char>>,
    state: Context,
    events: Seq<GamepadAxisEvent>,
    vals: Map<(Context, Seq<char>), int>,
) -> Map<(Context, Seq<char>), int>
    decreases events.len(),
{
    if events.len() == 0 {
        vals
    } else {
        let rest = gamepad_axis_sampled(bindings, state, events.drop_last(), vals);
        let e = events.last();
        let v = clamp_signed(e.value as int);
        let pair = gamepad_pair(e.axis);
        let pos = PhysicalInput::GamepadAxis(pair.0);
        let neg = PhysicalInput::GamepadAxis(pair.1);
        if v >= 0 {
            half_axis_write(bindings, state, pos, neg, v, rest)
        } else {
            half_axis_write(bindings, state, neg, pos, -v, rest)
        }
    }
}

/// The action values after folding this frame's gamepad button
/// events: each event whose button is bound under `state` writes the
/// event's clamped value for the bound action.
pub open spec fn gamepad_button_sampled(
    bindings: Map<(Context, PhysicalInput), Seq<char>>,
    state: Context,
    events: Seq<GamepadButtonEvent>,
    vals: Map<(Context, Seq<char>), int>,
) -> Map<(Context, Seq<char>), int>
    decreases events.len(),
{
    if events.len() == 0 {
        vals
    } else {
        let rest = gamepad_button_sampled(bindings, state, events.drop_last(), vals);
        let e = events.last();
        let k = (state, PhysicalInput::GamepadButton(e.button));
        if bindings.contains_key(k) {
            rest.insert((state, bindings[k]), clamp_magnitude(e.value as int))
        } else {
            rest
        }
    }
}

/// Sign exclusivity for any gamepad axis pair bound to distinct
/// actions: one event of positive value `v` drives the positive
/// half-axis's action to `v` and clears the negative half-axis's
/// action in the same frame, and an event of value 0 clears both.
pub proof fn lemma_gamepad_axis_sign_exclusivity(
    bindings: Map<(Context, PhysicalInput), Seq<char>>,
    state: Context,
    axis: GamepadAxisPair,
    a: Seq<char>,
    b: Seq<char>,
    v: i32,
    vals: Map<(Context, Seq<char>), int>,
    vals2: Map<(Context, Seq<char>), int>,
)
    requires
        bindings.contains_key((state, PhysicalInput::GamepadAxis(gamepad_pair(axis).0))),
        bindings[(state, PhysicalInput::GamepadAxis(gamepad_pair(axis).0))] == a,
        bindings.contains_key((state, PhysicalInput::GamepadAxis(gamepad_pair(axis).1))),
        bindings[(state, PhysicalInput::GamepadAxis(gamepad_pair(axis).1))] == b,
        a != b,
        0 < v <= crate::input::values::FULL_VALUE,
    ensures
        lookup_or_zero(
            gamepad_axis_sampled(
                bindings,
                state,
                seq![(GamepadAxisEvent { axis: axis, value: v })],
                vals,
            ),
            (state, a),
        ) == v,
        lookup_or_zero(
            gamepad_axis_sampled(
                bindings,
                state,
                seq![(GamepadAxisEvent { axis: axis, value: v })],
                vals,
            ),
            (state, b),
        ) == 0,
        lookup_or_zero(
            gamepad_axis_sampled(
                bindings,
                state,
                seq![(GamepadAxisEvent { axis: axis, value: 0 })],
                vals2,
            ),
            (state, a),
        ) == 0,
        lookup_or_zero(
            gamepad_axis_sampled(
                bindings,
                state,
                seq![(GamepadAxisEvent { axis: axis, value: 0 })],
                vals2,
            ),
            (state, b),
        ) == 0,
{
    let e1 = GamepadAxisEvent { axis: axis, value: v };
    let e0 = GamepadAxisEvent { axis: axis, value: 0 };
    assert(seq![e1].drop_last() =~= Seq::<GamepadAxisEvent>::empty());
    assert(seq![e0].drop_last() =~= Seq::<GamepadAxisEvent>::empty());
    assert(seq![e1].last() == e1);
    assert(seq![e0].last() == e0);
}

impl InputMapper {
    /// Samples this frame's gamepad button events: every event whose
    /// button is bound under `state` writes the event's clamped value
    /// (0 when the button was released) for the bound action.
    pub fn gamepad_button_press_system(&mut self, state: Context, events: &Vec<GamepadButtonEvent>)
        requires
            old(self).wf(),
        ensures
            final(self).wf(),
            final(self).action_value@ == gamepad_button_sampled(
                old(self).gamepad_button_binding@,
                state,
                events@,
                old(self).action_value@,
            ),
            final(self).previous_action_value == old(self).previous_action_value,
            final(self).keyboard_binding == old(self).keyboard_binding,
            final(self).mouse_button_binding == old(self).mouse_button_binding,
            final(self).mouse_axis_binding == old(self).mouse_axis_binding,
            final(self).gamepad_axis_binding == old(self).gamepad_axis_binding,
            final(self).gamepad_button_binding == old(self).gamepad_button_binding,
    {
        let n = events.len();
        let mut i: usize = 0;
        while i < n
            invariant
                old(self).wf(),
                i <= n,
                n == events@.len(),
                self.keyboard_binding == old(self).keyboard_binding,
                self.mouse_button_binding == old(self).mouse_button_binding,
                self.previous_action_value == old(self).previous_action_value,
                self.mouse_axis_binding == old(self).mouse_axis_binding,
                self.gamepad_axis_binding == old(self).gamepad_axis_binding,
                self.gamepad_button_binding == old(self).gamepad_button_binding,
                self.action_value.wf(),
                self.action_value@ == gamepad_button_sampled(
                    old(self).gamepad_button_binding@,
                    state,
                    events@.take(i as int),
                    old(self).action_value@,
                ),
            decreases n - i,
        {
            let e = events[i];
            match self.gamepad_button_binding.get(state, PhysicalInput::GamepadButton(e.button)) {
                Some(a) => {
                    let a2 = a.clone();
                    let v = clamp_magnitude_value(e.value);
                    self.action_value.set(state, a2, v);
                },
                None => {},
            }
            proof {
                assert(events@.take(i as int + 1).drop_last() =~= events@.take(i as int));
                assert(events@.take(i as int + 1).last() == events@[i as int]);
            }
            i += 1;
        }
        proof {
            assert(events@.take(n as int) =~= events@);
        }
    }

    /// Samples this frame's gamepad axis events: each moved axis's
    /// bound half-axis action receives the clamped magnitude while the
    /// opposite half-axis's bound action is cleared; an event with
    /// value 0 clears both.
    pub fn gamepad_axis_move_system(&mut self, state: Context, events: &Vec<GamepadAxisEvent>)
        requires
            old(self).wf(),
        ensures
            final(self).wf(),
            final(self).action_value@ == gamepad_axis_sampled(
                old(self).gamepad_axis_binding@,
                state,
                events@,
                old(self).action_value@,
            ),
            final(self).previous_action_value == old(self).previous_action_value,
            final(self).keyboard_binding == old(self).keyboard_binding,
            final(self).mouse_button_binding == old(self).mouse_button_binding,
            final(self).mouse_axis_binding == old(self).mouse_axis_binding,
            final(self).gamepad_axis_binding == old(self).gamepad_axis_binding,
            final(self).gamepad_button_binding == old(self).gamepad_button_binding,
    {
        let n = events.len();
        let mut i: usize = 0;
        while i < n
            invariant
                old(self).wf(),
                i <= n,
                n == events@.len(),
                self.keyboard_binding == old(self).keyboard_binding,
                self.mouse_button_binding == old(self).mouse_button_binding,
                self.previous_action_value == old(self).previous_action_value,
                self.mouse_axis_binding == old(self).mouse_axis_binding,
                self.gamepad_axis_binding == old(self).gamepad_axis_binding,
                self.gamepad_button_binding == old(self).gamepad_button_binding,
                self.action_value.wf(),
                self.action_value@ == gamepad_axis_sampled(
                    old(self).gamepad_axis_binding@,
                    state,
                    events@.take(i as int),
                    old(self).action_value@,
                ),
            decreases n - i,
        {
            let e = events[i];
            let v = clamp_signed_value(e.value);
            let pair = gamepad_pair_of(e.axis);
            if v >= 0 {
                write_pair(
                    &self.gamepad_axis_binding,
                    &mut self.action_value,
                    state,
                    PhysicalInput::GamepadAxis(pair.0),
                    PhysicalInput::GamepadAxis(pair.1),
                    v,
                );
            } else {
                write_pair(
                    &self.gamepad_axis_binding,
                    &mut self.action_value,
                    state,
                    PhysicalInput::GamepadAxis(pair.1),
                    PhysicalInput::GamepadAxis(pair.0),
                    -v,
                );
            }
            proof {
                assert(events@.take(i as int + 1).drop_last() =~= events@.take(i as int));
                assert(events@.take(i as int + 1).last() == events@[i as int]);
            }
            i += 1;
        }
        proof {
            assert(events@.take(n as int) =~= events@);
        }
    }
}

} // verus!
