//! Context-scoped mapping from physical inputs to named actions.
//!
//! The library keeps five binding tables, one per input class (keyboard
//! key, mouse button, mouse axis, gamepad button, gamepad axis).  Each
//! frame the host hands it a snapshot of raw input; samplers resolve the
//! bindings that are live under the current context and write numeric
//! action values into a current-frame table.  A pure classifier compares
//! each action's value against the previous frame and derives lifecycle
//! events (started, continuing, finished), which the per-frame cycle
//! returns for the host to broadcast.
//!
//! Action values are fixed-point: `FULL_VALUE` (1000) stands for a full
//! deflection or a fully pressed button, so every value lies in
//! `0 ..= FULL_VALUE`.

pub mod input;

use vstd::prelude::*;

use crate::input::binding::{bind_step, unbind_step, Binding, BindingTable, Context, PhysicalInput};
use crate::input::gamepad::{GamepadAxis, GamepadButton};
use crate::input::keyboard::Key;
use crate::input::mouse::{MouseAxis, MouseButton};
use crate::input::values::{ValueEntry, ValueTable};

verus! {

/// Maps context-scoped physical inputs to named actions and tracks the
/// per-action values of the current and the previous frame.
pub struct InputMapper {
    /// Action values sampled this frame.
    pub action_value: ValueTable,
    /// Action values of the immediately preceding frame.
    pub previous_action_value: ValueTable,
    /// Bindings from keyboard keys to action names.
    pub keyboard_binding: BindingTable,
    /// Bindings from mouse buttons to action names.
    pub mouse_button_binding: BindingTable,
    /// Bindings from mouse half-axes to action names.
    pub mouse_axis_binding: BindingTable,
    /// Bindings from gamepad half-axes to action names.
    pub gamepad_axis_binding: BindingTable,
    /// Bindings from gamepad buttons to action names.
    pub gamepad_button_binding: BindingTable,
}

impl InputMapper {
    /// Every table is well formed: keys are unique and stored values
    /// stay in the fixed-point range.
    pub open spec fn wf(&self) -> bool {
        &&& self.action_value.wf()
        &&& self.previous_action_value.wf()
        &&& self.keyboard_binding.wf()
        &&& self.mouse_button_binding.wf()
        &&& self.mouse_axis_binding.wf()
        &&& self.gamepad_axis_binding.wf()
        &&& self.gamepad_button_binding.wf()
    }

    /// A mapper with no bindings and no recorded values.
    pub fn new() -> (r: Self)
        ensures
            r.wf(),
            r.action_value@ == Map::<(Context, Seq<char>), int>::empty(),
            r.previous_action_value@ == Map::<(Context, Seq<char>), int>::empty(),
            r.keyboard_binding@ == Map::<(Context, PhysicalInput), Seq<char>>::empty(),
            r.mouse_button_binding@ == Map::<(Context, PhysicalInput), Seq<char>>::empty(),
            r.mouse_axis_binding@ == Map::<(Context, PhysicalInput), Seq<char>>::empty(),
            r.gamepad_axis_binding@ == Map::<(Context, PhysicalInput), Seq<char>>::empty(),
            r.gamepad_button_binding@ == Map::<(Context, PhysicalInput), Seq<char>>::empty(),
            r.action_value.entries() == Seq::<ValueEntry>::empty(),
            r.previous_action_value.entries() == Seq::<ValueEntry>::empty(),
            r.keyboard_binding.entries() == Seq::<Binding>::empty(),
            r.mouse_button_binding.entries() == Seq::<Binding>::empty(),
            r.mouse_axis_binding.entries() == Seq::<Binding>::empty(),
            r.gamepad_axis_binding.entries() == Seq::<Binding>::empty(),
            r.gamepad_button_binding.entries() == Seq::<Binding>::empty(),
    {
        InputMapper {
            action_value: ValueTable::new(),
            previous_action_value: ValueTable::new(),
            keyboard_binding: BindingTable::new(),
            mouse_button_binding: BindingTable::new(),
            mouse_axis_binding: BindingTable::new(),
            gamepad_axis_binding: BindingTable::new(),
            gamepad_button_binding: BindingTable::new(),
        }
    }
}

impl InputMapper {
    /// Binds pressing `key` under `scenario` to the named action,
    /// overwriting any earlier binding of that key; returns the mapper
    /// for chaining.
    pub fn bind_keyboard_key_press(&mut self, scenario: Context, key: Key, action: String) -> (r:
        &mut Self)
        requires
            old(self).wf(),
        ensures
            r.wf(),
            r.keyboard_binding@ == old(self).keyboard_binding@.insert(
                (scenario, PhysicalInput::Key(key)),
                action@,
            ),
            bind_step(
                old(self).keyboard_binding.entries(),
                r.keyboard_binding.entries(),
                (Binding { ctx: scenario, input: PhysicalInput::Key(key), action: action }),
            ),
            r.action_value == old(self).action_value,
            r.previous_action_value == old(self).previous_action_value,
            r.mouse_button_binding == old(self).mouse_button_binding,
            r.mouse_axis_binding == old(self).mouse_axis_binding,
            r.gamepad_axis_binding == old(self).gamepad_axis_binding,
            r.gamepad_button_binding == old(self).gamepad_button_binding,
            *final(self) == *final(r),
    {
        self.keyboard_binding.bind(scenario, PhysicalInput::Key(key), action);
        self
    }

    /// Binds movement along `axis` under `scenario` to the named
    /// action, overwriting any earlier binding of that half-axis;
    /// returns the mapper for chaining.
    pub fn bind_mouse_axis_move(&mut self, scenario: Context, axis: MouseAxis, action: String) -> (r:
        &mut Self)
        requires
            old(self).wf(),
        ensures
            r.wf(),
            r.mouse_axis_binding@ == old(self).mouse_axis_binding@.insert(
                (scenario, PhysicalInput::MouseAxis(axis)),
                action@,
            ),
            bind_step(
                old(self).mouse_axis_binding.entries(),
                r.mouse_axis_binding.entries(),
                (Binding { ctx: scenario, input: PhysicalInput::MouseAxis(axis), action: action }),
            ),
            r.action_value == old(self).action_value,
            r.previous_action_value == old(self).previous_action_value,
            r.keyboard_binding == old(self).keyboard_binding,
            r.mouse_button_binding == old(self).mouse_button_binding,
            r.gamepad_axis_binding == old(self).gamepad_axis_binding,
            r.gamepad_button_binding == old(self).gamepad_button_binding,
            *final(self) == *final(r),
    {
        self.mouse_axis_binding.bind(scenario, PhysicalInput::MouseAxis(axis), action);
        self
    }

    /// Binds pressing `button` under `scenario` to the named action,
    /// overwriting any earlier binding of that button; returns the
    /// mapper for chaining.
    pub fn bind_mouse_button_press(
        &mut self,
        scenario: Context,
        button: MouseButton,
        action: String,
    ) -> (r: &mut Self)
        requires
            old(self).wf(),
        ensures
            r.wf(),
            r.mouse_button_binding@ == old(self).mouse_button_binding@.insert(
                (scenario, PhysicalInput::MouseButton(button)),
                action@,
            ),
            bind_step(
                old(self).mouse_button_binding.entries(),
                r.mouse_button_binding.entries(),
                (Binding { ctx: scenario, input: PhysicalInput::MouseButton(button), action: action }),
            ),
            r.action_value == old(self).action_value,
            r.previous_action_value == old(self).previous_action_value,
            r.keyboard_binding == old(self).keyboard_binding,
            r.mouse_axis_binding == old(self).mouse_axis_binding,
            r.gamepad_axis_binding == old(self).gamepad_axis_binding,
            r.gamepad_button_binding == old(self).gamepad_button_binding,
            *final(self) == *final(r),
    {
        self.mouse_button_binding.bind(scenario, PhysicalInput::MouseButton(button), action);
        self
    }

    /// Binds movement along `axis` under `scenario` to the named
    /// action, overwriting any earlier binding of that half-axis;
    /// returns the mapper for chaining.
    pub fn bind_gamepad_axis_move(
        &mut self,
        scenario: Context,
        axis: GamepadAxis,
        action: String,
    ) -> (r: &mut Self)
        requires
            old(self).wf(),
        ensures
            r.wf(),
            r.gamepad_axis_binding@ == old(self).gamepad_axis_binding@.insert(
                (scenario, PhysicalInput::GamepadAxis(axis)),
                action@,
            ),
            bind_step(
                old(self).gamepad_axis_binding.entries(),
                r.gamepad_axis_binding.entries(),
                (Binding { ctx: scenario, input: PhysicalInput::GamepadAxis(axis), action: action }),
            ),
            r.action_value == old(self).action_value,
            r.previous_action_value == old(self).previous_action_value,
            r.keyboard_binding == old(self).keyboard_binding,
            r.mouse_button_binding == old(self).mouse_button_binding,
            r.mouse_axis_binding == old(self).mouse_axis_binding,
            r.gamepad_button_binding == old(self).gamepad_button_binding,
            *final(self) == *final(r),
    {
        self.gamepad_axis_binding.bind(scenario, PhysicalInput::GamepadAxis(axis), action);
        self
    }

    /// Binds pressing `button` under `scenario` to the named action,
    /// overwriting any earlier binding of that button; returns the
    /// mapper for chaining.
    pub fn bind_gamepad_button_press(
        &mut self,
        scenario: Context,
        button: GamepadButton,
        action: String,
    ) -> (r: &mut Self)
        requires
            old(self).wf(),
        ensures
            r.wf(),
            r.gamepad_button_binding@ == old(self).gamepad_button_binding@.insert(
                (scenario, PhysicalInput::GamepadButton(button)),
                action@,
            ),
            bind_step(
                old(self).gamepad_button_binding.entries(),
                r.gamepad_button_binding.entries(),
                (Binding { ctx: scenario, input: PhysicalInput::GamepadButton(button), action: action }),
            ),
            r.action_value == old(self).action_value,
            r.previous_action_value == old(self).previous_action_value,
            r.keyboard_binding == old(self).keyboard_binding,
            r.mouse_button_binding == old(self).mouse_button_binding,
            r.mouse_axis_binding == old(self).mouse_axis_binding,
            r.gamepad_axis_binding == old(self).gamepad_axis_binding,
            *final(self) == *final(r),
    {
        self.gamepad_button_binding.bind(scenario, PhysicalInput::GamepadButton(button), action);
        self
    }

    /// Removes the binding of `key` under `scenario`, if one exists;
    /// returns the mapper for chaining.
    pub fn unbind_keyboard_key_press(&mut self, scenario: Context, key: Key) -> (r: &mut Self)
        requires
            old(self).wf(),
        ensures
            r.wf(),
            r.keyboard_binding@ == old(self).keyboard_binding@.remove(
                (scenario, PhysicalInput::Key(key)),
            ),
            unbind_step(
                old(self).keyboard_binding.entries(),
                r.keyboard_binding.entries(),
                (scenario, PhysicalInput::Key(key)),
            ),
            r.action_value == old(self).action_value,
            r.previous_action_value == old(self).previous_action_value,
            r.mouse_button_binding == old(self).mouse_button_binding,
            r.mouse_axis_binding == old(self).mouse_axis_binding,
            r.gamepad_axis_binding == old(self).gamepad_axis_binding,
            r.gamepad_button_binding == old(self).gamepad_button_binding,
            *final(self) == *final(r),
    {
        self.keyboard_binding.unbind(scenario, PhysicalInput::Key(key));
        self
    }

    /// Removes the binding of `axis` under `scenario`, if one exists;
    /// returns the mapper for chaining.
    pub fn unbind_mouse_axis_move(&mut self, scenario: Context, axis: MouseAxis) -> (r: &mut Self)
        requires
            old(self).wf(),
        ensures
            r.wf(),
            r.mouse_axis_binding@ == old(self).mouse_axis_binding@.remove(
                (scenario, PhysicalInput::MouseAxis(axis)),
            ),
            unbind_step(
                old(self).mouse_axis_binding.entries(),
                r.mouse_axis_binding.entries(),
                (scenario, PhysicalInput::MouseAxis(axis)),
            ),
            r.action_value == old(self).action_value,
            r.previous_action_value == old(self).previous_action_value,
            r.keyboard_binding == old(self).keyboard_binding,
            r.mouse_button_binding == old(self).mouse_button_binding,
            r.gamepad_axis_binding == old(self).gamepad_axis_binding,
            r.gamepad_button_binding == old(self).gamepad_button_binding,
            *final(self) == *final(r),
    {
        self.mouse_axis_binding.unbind(scenario, PhysicalInput::MouseAxis(axis));
        self
    }

    /// Removes the binding of `button` under `scenario`, if one exists;
    /// returns the mapper for chaining.
    pub fn unbind_mouse_button_press(&mut self, scenario: Context, button: MouseButton) -> (r:
        &mut Self)
        requires
            old(self).wf(),
        ensures
            r.wf(),
            r.mouse_button_binding@ == old(self).mouse_button_binding@.remove(
                (scenario, PhysicalInput::MouseButton(button)),
            ),
            unbind_step(
                old(self).mouse_button_binding.entries(),
                r.mouse_button_binding.entries(),
                (scenario, PhysicalInput::MouseButton(button)),
            ),
            r.action_value == old(self).action_value,
            r.previous_action_value == old(self).previous_action_value,
            r.keyboard_binding == old(self).keyboard_binding,
            r.mouse_axis_binding == old(self).mouse_axis_binding,
            r.gamepad_axis_binding == old(self).gamepad_axis_binding,
            r.gamepad_button_binding == old(self).gamepad_button_binding,
            *final(self) == *final(r),
    {
        self.mouse_button_binding.unbind(scenario, PhysicalInput::MouseButton(button));
        self
    }

    /// Removes the binding of `axis` under `scenario`, if one exists;
    /// returns the mapper for chaining.
    pub fn unbind_gamepad_axis_move(&mut self, scenario: Context, axis: GamepadAxis) -> (r:
        &mut Self)
        requires
            old(self).wf(),
        ensures
            r.wf(),
            r.gamepad_axis_binding@ == old(self).gamepad_axis_binding@.remove(
                (scenario, PhysicalInput::GamepadAxis(axis)),
            ),
            unbind_step(
                old(self).gamepad_axis_binding.entries(),
                r.gamepad_axis_binding.entries(),
                (scenario, PhysicalInput::GamepadAxis(axis)),
            ),
            r.action_value == old(self).action_value,
            r.previous_action_value == old(self).previous_action_value,
            r.keyboard_binding == old(self).keyboard_binding,
            r.mouse_button_binding == old(self).mouse_button_binding,
            r.mouse_axis_binding == old(self).mouse_axis_binding,
            r.gamepad_button_binding == old(self).gamepad_button_binding,
            *final(self) == *final(r),
    {
        self.gamepad_axis_binding.unbind(scenario, PhysicalInput::GamepadAxis(axis));
        self
    }

    /// Removes the binding of `button` under `scenario`, if one exists;
    /// returns the mapper for chaining.
    pub fn unbind_gamepad_button_press(&mut self, scenario: Context, button: GamepadButton) -> (r:
        &mut Self)
        requires
            old(self).wf(),
        ensures
            r.wf(),
            r.gamepad_button_binding@ == old(self).gamepad_button_binding@.remove(
                (scenario, PhysicalInput::GamepadButton(button)),
            ),
            unbind_step(
                old(self).gamepad_button_binding.entries(),
                r.gamepad_button_binding.entries(),
                (scenario, PhysicalInput::GamepadButton(button)),
            ),
            r.action_value == old(self).action_value,
            r.previous_action_value == old(self).previous_action_value,
            r.keyboard_binding == old(self).keyboard_binding,
            r.mouse_button_binding == old(self).mouse_button_binding,
            r.mouse_axis_binding == old(self).mouse_axis_binding,
            r.gamepad_axis_binding == old(self).gamepad_axis_binding,
            *final(self) == *final(r),
    {
        self.gamepad_button_binding.unbind(scenario, PhysicalInput::GamepadButton(button));
        self
    }
}

impl Default for InputMapper {
    /// Same as [`InputMapper::new`].
    fn default() -> (r: Self)
        ensures
            r.wf(),
            r.action_value@ == Map::<(Context, Seq<char>), int>::empty(),
            r.previous_action_value@ == Map::<(Context, Seq<char>), int>::empty(),
            r.keyboard_binding@ == Map::<(Context, PhysicalInput), Seq<char>>::empty(),
            r.mouse_button_binding@ == Map::<(Context, PhysicalInput), Seq<char>>::empty(),
            r.mouse_axis_binding@ == Map::<(Context, PhysicalInput), Seq<char>>::empty(),
            r.gamepad_axis_binding@ == Map::<(Context, PhysicalInput), Seq<char>>::empty(),
            r.gamepad_button_binding@ == Map::<(Context, PhysicalInput), Seq<char>>::empty(),
            r.action_value.entries() == Seq::<ValueEntry>::empty(),
            r.previous_action_value.entries() == Seq::<ValueEntry>::empty(),
            r.keyboard_binding.entries() == Seq::<Binding>::empty(),
            r.mouse_button_binding.entries() == Seq::<Binding>::empty(),
            r.mouse_axis_binding.entries() == Seq::<Binding>::empty(),
            r.gamepad_axis_binding.entries() == Seq::<Binding>::empty(),
            r.gamepad_button_binding.entries() == Seq::<Binding>::empty(),
    {
        InputMapper::new()
    }
}

} // verus!
