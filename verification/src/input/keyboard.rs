//! Keyboard keys and the keyboard sampler.

use vstd::prelude::*;

use crate::input::binding::{Binding, Context, PhysicalInput};
use crate::input::values::FULL_VALUE;
use crate::InputMapper;

verus! {

/// An opaque keyboard key code, as reported by the host's input layer.
#[derive(Clone, Copy, PartialEq, Eq, Structural, Hash, Debug)]
pub struct Key(pub u32);

/// Whether `keys` lists `k`.
pub fn key_list_contains(keys: &Vec<Key>, k: Key) -> (r: bool)
    ensures
        r == keys@.contains(k),
{
    let mut i: usize = 0;
    while i < keys.len()
        invariant
            i <= keys@.len(),
            forall|j: int| 0 <= j < i ==> keys@[j] != k,
        decreases keys@.len() - i,
    {
        if keys[i] == k {
            return true;
        }
        i += 1;
    }
    false
}

/// The action values after walking `entries` against a keyboard
/// snapshot: for each binding live under `state`, a key released this
/// frame writes 0, a held key writes `FULL_VALUE`, and a key neither
/// held nor just released leaves no write.
pub open spec fn keyboard_sampled(
    entries: Seq<Binding>,
    state: Context,
    held: Seq<Key>,
    released: Seq<Key>,
    vals: Map<(Context, Seq<char>), int>,
) -> Map<(Context, Seq<char>), int>
    decreases entries.len(),
{
    if entries.len() == 0 {
        vals
    } else {
        let rest = keyboard_sampled(entries.drop_last(), state, held, released, vals);
        let b = entries.last();
        match b.input {
            PhysicalInput::Key(k) => {
                if b.ctx == state && released.contains(k) {
                    rest.insert((state, b.action@), 0)
                } else if b.ctx == state && held.contains(k) {
                    rest.insert((state, b.action@), FULL_VALUE as int)
                } else {
                    rest
                }
            },
            _ => rest,
        }
    }
}

/// The keyboard sampler is scoped to the active context: a recorded
/// value whose context is not the active one, or whose action no key
/// binding of the active context drives, is left exactly as it was.
/// In particular an action that lost its binding receives no further
/// values from this sampler.
pub proof fn lemma_keyboard_sampler_scoped(
    entries: Seq<Binding>,
    state: Context,
    held: Seq<Key>,
    released: Seq<Key>,
    vals: Map<(Context, Seq<char>), int>,
    k: (Context, Seq<char>),
)
    requires
        k.0 != state || !crate::input::binding::binds_action(entries, state, k.1),
    ensures
        keyboard_sampled(entries, state, held, released, vals).contains_key(k)
            == vals.contains_key(k),
        vals.contains_key(k) ==> keyboard_sampled(entries, state, held, released, vals)[k]
            == vals[k],
    decreases entries.len(),
{
    if entries.len() > 0 {
        let dl = entries.drop_last();
        if crate::input::binding::binds_action(dl, state, k.1) {
            let i = choose|i: int|
                0 <= i < dl.len() && dl[i].ctx == state && dl[i].action@ == k.1;
            assert(entries[i].ctx == state && entries[i].action@ == k.1);
        }
        lemma_keyboard_sampler_scoped(dl, state, held, released, vals, k);
        let b = entries.last();
        if b.ctx == state {
            assert(entries[entries.len() - 1] == b);
        }
    }
}

/// With no keys held and none released, the keyboard sampler leaves
/// the value table untouched.
pub proof fn lemma_keyboard_quiet(
    entries: Seq<Binding>,
    state: Context,
    vals: Map<(Context, Seq<char>), int>,
)
    ensures
        keyboard_sampled(entries, state, Seq::empty(), Seq::empty(), vals) == vals,
    decreases entries.len(),
{
    if entries.len() > 0 {
        lemma_keyboard_quiet(entries.drop_last(), state, vals);
    }
}

impl InputMapper {
    /// Samples the keyboard snapshot: every key binding live under
    /// `state` whose key is held writes `FULL_VALUE` for its action,
    /// and one whose key was just released writes 0.
    pub fn keyboard_key_press_system(
        &mut self,
        state: Context,
        held: &Vec<Key>,
        just_released: &Vec<Key>,
    )
        requires
            old(self).wf(),
        ensures
            final(self).wf(),
            final(self).action_value@ == keyboard_sampled(
                old(self).keyboard_binding.entries(),
                state,
                held@,
                just_released@,
                old(self).action_value@,
            ),
            final(self).previous_action_value == old(self).previous_action_value,
            final(self).keyboard_binding == old(self).keyboard_binding,
            final(self).mouse_button_binding == old(self).mouse_button_binding,
            final(self).mouse_axis_binding == old(self).mouse_axis_binding,
            final(self).gamepad_axis_binding == old(self).gamepad_axis_binding,
            final(self).gamepad_button_binding == old(self).gamepad_button_binding,
    {
        let ghost entries = old(self).keyboard_binding.entries();
        let n = self.keyboard_binding.items.len();
        let mut i: usize = 0;
        while i < n
            invariant
                old(self).wf(),
                i <= n,
                entries == old(self).keyboard_binding.entries(),
                n == self.keyboard_binding.items@.len(),
                self.keyboard_binding == old(self).keyboard_binding,
                self.previous_action_value == old(self).previous_action_value,
                self.mouse_button_binding == old(self).mouse_button_binding,
                self.mouse_axis_binding == old(self).mouse_axis_binding,
                self.gamepad_axis_binding == old(self).gamepad_axis_binding,
                self.gamepad_button_binding == old(self).gamepad_button_binding,
                self.action_value.wf(),
                self.action_value@ == keyboard_sampled(
                    entries.take(i as int),
                    state,
                    held@,
                    just_released@,
                    old(self).action_value@,
                ),
            decreases n - i,
        {
            let b_ctx = self.keyboard_binding.items[i].ctx;
            let b_input = self.keyboard_binding.items[i].input;
            match b_input {
                PhysicalInput::Key(k) => {
                    if b_ctx == state {
                        let released = key_list_contains(just_released, k);
                        let held_now = key_list_contains(held, k);
                        if released {
                            let a = self.keyboard_binding.items[i].action.clone();
                            self.action_value.set(state, a, 0);
                        } else if held_now {
                            let a = self.keyboard_binding.items[i].action.clone();
                            self.action_value.set(state, a, FULL_VALUE);
                        }
                    }
                },
                _ => {},
            }
            proof {
                assert(entries.take(i as int + 1).drop_last() =~= entries.take(i as int));
                assert(entries.take(i as int + 1).last() == entries[i as int]);
            }
            i += 1;
        }
        proof {
            assert(entries.take(n as int) =~= entries);
        }
    }
}

} // verus!
