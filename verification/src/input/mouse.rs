//! Mouse buttons, mouse half-axes and the mouse samplers.

use vstd::prelude::*;

use crate::input::axis::{half_axis_write, write_pair};
use crate::input::binding::{Binding, Context, PhysicalInput};
use crate::input::values::{clamp_signed, clamp_signed_value, lookup_or_zero, FULL_VALUE};
use crate::InputMapper;

verus! {

/// An opaque mouse button id, as reported by the host's input layer.
#[derive(Clone, Copy, PartialEq, Eq, Structural, Hash, Debug)]
pub struct MouseButton(pub u32);

/// One signed direction of the mouse's 2D movement, modeled as an
/// independent bindable unit.  The axes follow screen conventions:
/// X grows to the right, Y grows downward.
#[derive(Default, Clone, Copy, PartialEq, Eq, Structural, Hash, Debug)]
pub enum MouseAxis {
    /// Movement to the right.
    #[default]
    PositiveX,
    /// Movement to the left.
    NegativeX,
    /// Movement downward.
    PositiveY,
    /// Movement upward.
    NegativeY,
}

/// The mouse movement accumulated over one frame, in fixed-point units
/// (1000 stands for a full deflection of 1.0).
#[derive(Clone, Copy, PartialEq, Eq, Structural, Debug)]
pub struct MouseDelta {
    /// Signed horizontal movement.
    pub dx: i32,
    /// Signed vertical movement.
    pub dy: i32,
}

/// Whether `buttons` lists `b`.
pub fn mouse_button_list_contains(buttons: &Vec<MouseButton>, b: MouseButton) -> (r: bool)
    ensures
        r == buttons@.contains(b),
{
    let mut i: usize = 0;
    while i < buttons.len()
        invariant
            i <= buttons@.len(),
            forall|j: int| 0 <= j < i ==> buttons@[j] != b,
        decreases buttons@.len() - i,
    {
        if buttons[i] == b {
            return true;
        }
        i += 1;
    }
    false
}

/// The action values after walking `entries` against a mouse-button
/// snapshot: for each binding live under `state`, a button released
/// this frame writes 0, a held button writes `FULL_VALUE`, and a
/// button neither held nor just released leaves no write.
pub open spec fn mouse_button_sampled(
    entries: Seq<Binding>,
    state: Context,
    held: Seq<MouseButton>,
    released: Seq<MouseButton>,
    vals: Map<(Context, Seq<char>), int>,
) -> Map<(Context, Seq<char>), int>
    decreases entries.len(),
{
    if entries.len() == 0 {
        vals
    } else {
        let rest = mouse_button_sampled(entries.drop_last(), state, held, released, vals);
        let b = entries.last();
        match b.input {
            PhysicalInput::MouseButton(mb) => {
                if b.ctx == state && released.contains(mb) {
                    rest.insert((state, b.action@), 0)
                } else if b.ctx == state && held.contains(mb) {
                    rest.insert((state, b.action@), FULL_VALUE as int)
                } else {
                    rest
                }
            },
            _ => rest,
        }
    }
}

/// The action values after feeding one frame of mouse motion through
/// the half-axis bindings.  The moved direction's action receives the
/// clamped magnitude and the opposite direction's action receives 0;
/// a frame without motion clears all four bound half-axis actions.
pub open spec fn mouse_axis_sampled(
    bindings: Map<(Context, PhysicalInput), Seq<char>>,
    state: Context,
    motion: Option<MouseDelta>,
    vals: Map<(Context, Seq<char>), int>,
) -> Map<(Context, Seq<char>), int> {
    let px = PhysicalInput::MouseAxis(MouseAxis::PositiveX);
    let nx = PhysicalInput::MouseAxis(MouseAxis::NegativeX);
    let py = PhysicalInput::MouseAxis(MouseAxis::PositiveY);
    let ny = PhysicalInput::MouseAxis(MouseAxis::NegativeY);
    match motion {
        Option::None => {
            let after_x = half_axis_write(bindings, state, px, nx, 0, vals);
            half_axis_write(bindings, state, py, ny, 0, after_x)
        },
        Option::Some(d) => {
            let vx = clamp_signed(d.dx as int);
            let vy = clamp_signed(d.dy as int);
            let after_x = if vx >= 0 {
                half_axis_write(bindings, state, px, nx, vx, vals)
            } else {
                half_axis_write(bindings, state, nx, px, -vx, vals)
            };
            if vy >= 0 {
                half_axis_write(bindings, state, py, ny, vy, after_x)
            } else {
                half_axis_write(bindings, state, ny, py, -vy, after_x)
            }
        },
    }
}

/// Sign exclusivity for one axis pair bound to distinct actions: a
/// positive delta of magnitude `m` drives the positive half-axis's
/// action to `m` and clears the negative half-axis's action in the
/// same frame, and a zero-delta frame clears both.  Nothing may be
/// bound on the other axis, which would otherwise write the same
/// actions.
pub proof fn lemma_axis_sign_exclusivity(
    bindings: Map<(Context, PhysicalInput), Seq<char>>,
    state: Context,
    a: Seq<char>,
    b: Seq<char>,
    m: i32,
    vals: Map<(Context, Seq<char>), int>,
    vals2: Map<(Context, Seq<char>), int>,
)
    requires
        bindings.contains_key((state, PhysicalInput::MouseAxis(MouseAxis::PositiveX))),
        bindings[(state, PhysicalInput::MouseAxis(MouseAxis::PositiveX))] == a,
        bindings.contains_key((state, PhysicalInput::MouseAxis(MouseAxis::NegativeX))),
        bindings[(state, PhysicalInput::MouseAxis(MouseAxis::NegativeX))] == b,
        a != b,
        !bindings.contains_key((state, PhysicalInput::MouseAxis(MouseAxis::PositiveY))),
        !bindings.contains_key((state, PhysicalInput::MouseAxis(MouseAxis::NegativeY))),
        0 < m <= FULL_VALUE,
    ensures
        lookup_or_zero(
            mouse_axis_sampled(bindings, state, Some((MouseDelta { dx: m, dy: 0 })), vals),
            (state, a),
        ) == m,
        lookup_or_zero(
            mouse_axis_sampled(bindings, state, Some((MouseDelta { dx: m, dy: 0 })), vals),
            (state, b),
        ) == 0,
        lookup_or_zero(
            mouse_axis_sampled(bindings, state, Some((MouseDelta { dx: 0, dy: 0 })), vals2),
            (state, a),
        ) == 0,
        lookup_or_zero(
            mouse_axis_sampled(bindings, state, Some((MouseDelta { dx: 0, dy: 0 })), vals2),
            (state, b),
        ) == 0,
{
}

/// With no buttons held and none released, the mouse-button sampler
/// leaves the value table untouched.
pub proof fn lemma_mouse_button_quiet(
    entries: Seq<Binding>,
    state: Context,
    vals: Map<(Context, Seq<char>), int>,
)
    ensures
        mouse_button_sampled(entries, state, Seq::empty(), Seq::empty(), vals) == vals,
    decreases entries.len(),
{
    if entries.len() > 0 {
        lemma_mouse_button_quiet(entries.drop_last(), state, vals);
    }
}

impl InputMapper {
    /// Samples the mouse-button snapshot: every button binding live
    /// under `state` whose button is held writes `FULL_VALUE` for its
    /// action, and one whose button was just released writes 0.
    pub fn mouse_button_press_system(
        &mut self,
        state: Context,
        held: &Vec<MouseButton>,
        just_released: &Vec<MouseButton>,
    )
        requires
            old(self).wf(),
        ensures
            final(self).wf(),
            final(self).action_value@ == mouse_button_sampled(
                old(self).mouse_button_binding.entries(),
                state,
                held@,
                just_released@,
                old(self).action_value@,
            ),
            final(self).previous_action_value == old(self).previous_action_value,
            final(self).keyboard_binding == old(self).keyboard_binding,
            final(self).mouse_button_binding == old(self).mouse_button_binding,
            final(self).mouse_axis_binding == old(self).mouse_axis_binding,
            final(self).gamepad_axis_binding == old(self).gamepad_axis_binding,
            final(self).gamepad_button_binding == old(self).gamepad_button_binding,
    {
        let ghost entries = old(self).mouse_button_binding.entries();
        let n = self.mouse_button_binding.items.len();
        let mut i: usize = 0;
        while i < n
            invariant
                old(self).wf(),
                i <= n,
                entries == old(self).mouse_button_binding.entries(),
                n == self.mouse_button_binding.items@.len(),
                self.keyboard_binding == old(self).keyboard_binding,
                self.mouse_button_binding == old(self).mouse_button_binding,
                self.previous_action_value == old(self).previous_action_value,
                self.mouse_axis_binding == old(self).mouse_axis_binding,
                self.gamepad_axis_binding == old(self).gamepad_axis_binding,
                self.gamepad_button_binding == old(self).gamepad_button_binding,
                self.action_value.wf(),
                self.action_value@ == mouse_button_sampled(
                    entries.take(i as int),
                    state,
                    held@,
                    just_released@,
                    old(self).action_value@,
                ),
            decreases n - i,
        {
            let b_ctx = self.mouse_button_binding.items[i].ctx;
            let b_input = self.mouse_button_binding.items[i].input;
            match b_input {
                PhysicalInput::MouseButton(mb) => {
                    if b_ctx == state {
                        let released = mouse_button_list_contains(just_released, mb);
                        let held_now = mouse_button_list_contains(held, mb);
                        if released {
                            let a = self.mouse_button_binding.items[i].action.clone();
                            self.action_value.set(state, a, 0);
                        } else if held_now {
                            let a = self.mouse_button_binding.items[i].action.clone();
                            self.action_value.set(state, a, FULL_VALUE);
                        }
                    }
                },
                _ => {},
            }
            proof {
                assert(entries.take(i as int + 1).drop_last() =~= entries.take(i as int));
                assert(entries.take(i as int + 1).last() == entries[i as int]);
            }
            i += 1;
        }
        proof {
            assert(entries.take(n as int) =~= entries);
        }
    }

    /// Samples this frame's mouse motion: each moved direction's bound
    /// action receives the clamped magnitude while the opposite
    /// direction's bound action is cleared; a frame without motion
    /// clears all four bound half-axis actions.
    pub fn mouse_axis_move_system(&mut self, state: Context, motion: Option<MouseDelta>)
        requires
            old(self).wf(),
        ensures
            final(self).wf(),
            final(self).action_value@ == mouse_axis_sampled(
                old(self).mouse_axis_binding@,
                state,
                motion,
                old(self).action_value@,
            ),
            final(self).previous_action_value == old(self).previous_action_value,
            final(self).keyboard_binding == old(self).keyboard_binding,
            final(self).mouse_button_binding == old(self).mouse_button_binding,
            final(self).mouse_axis_binding == old(self).mouse_axis_binding,
            final(self).gamepad_axis_binding == old(self).gamepad_axis_binding,
            final(self).gamepad_button_binding == old(self).gamepad_button_binding,
    {
        let px = PhysicalInput::MouseAxis(MouseAxis::PositiveX);
        let nx = PhysicalInput::MouseAxis(MouseAxis::NegativeX);
        let py = PhysicalInput::MouseAxis(MouseAxis::PositiveY);
        let ny = PhysicalInput::MouseAxis(MouseAxis::NegativeY);
        match motion {
            Some(d) => {
                let vx = clamp_signed_value(d.dx);
                let vy = clamp_signed_value(d.dy);
                if vx >= 0 {
                    write_pair(&self.mouse_axis_binding, &mut self.action_value, state, px, nx, vx);
                } else {
                    write_pair(&self.mouse_axis_binding, &mut self.action_value, state, nx, px, -vx);
                }
                if vy >= 0 {
                    write_pair(&self.mouse_axis_binding, &mut self.action_value, state, py, ny, vy);
                } else {
                    write_pair(&self.mouse_axis_binding, &mut self.action_value, state, ny, py, -vy);
                }
            },
            None => {
                write_pair(&self.mouse_axis_binding, &mut self.action_value, state, px, nx, 0);
                write_pair(&self.mouse_axis_binding, &mut self.action_value, state, py, ny, 0);
            },
        }
    }
}

} // verus!
