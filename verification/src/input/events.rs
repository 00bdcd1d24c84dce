//! Lifecycle events and the per-frame event cycle.
//!
//! Once per frame, after the samplers ran, the cycle classifies every
//! action recorded this frame against the previous frame, collects the
//! resulting events for the host to broadcast, then promotes the
//! current value table into the previous one (a full replace, not a
//! merge) and clears the current table for the next frame.
//!
//! An `Active` event accompanies `Started` and `Continuing`; a
//! finished action's value is 0, so `Finished` is emitted alone.

use vstd::prelude::*;

use crate::input::axis::lemma_half_axis_write_zero;
use crate::input::binding::{Context, PhysicalInput};
use crate::input::gamepad::{gamepad_axis_sampled, gamepad_button_sampled, GamepadAxisEvent, GamepadButtonEvent};
use crate::input::keyboard::{keyboard_sampled, lemma_keyboard_quiet, Key};
use crate::input::mouse::{lemma_mouse_button_quiet, mouse_axis_sampled, mouse_button_sampled, MouseAxis, MouseButton};
use crate::input::snapshot::{InputSnapshot, SnapshotView};
use crate::input::state::{classify, classify_spec, Transition};
use crate::input::values::{all_zero, lemma_entries_zero, lookup_or_zero, unique_value_keys, value_map, values_in_range, ValueEntry, FULL_VALUE};
use crate::InputMapper;

verus! {

/// An action is active this frame: it started or is continuing.  The
/// payload is the action's name and its current value.
pub struct InputActionActive(pub String, pub i32);

/// An action went from unset to a positive value this frame.
pub struct InputActionStarted(pub String, pub i32);

/// An action stayed at a positive value this frame.
pub struct InputActionContinuing(pub String, pub i32);

/// An action went from a positive value to zero this frame.
pub struct InputActionFinished(pub String);

/// The events of one frame cycle, in the order the current-value
/// entries were recorded.
pub struct FrameEvents {
    /// One per action that started or continues this frame.
    pub active: Vec<InputActionActive>,
    /// One per action that started this frame.
    pub started: Vec<InputActionStarted>,
    /// One per action that continues this frame.
    pub continuing: Vec<InputActionContinuing>,
    /// One per action that finished this frame.
    pub finished: Vec<InputActionFinished>,
}

/// The transition the recorded entry `e` undergoes against the
/// previous generation `prev`.
pub open spec fn entry_transition(e: ValueEntry, prev: Map<(Context, Seq<char>), int>) -> Transition {
    classify_spec(lookup_or_zero(prev, (e.ctx, e.action@)), e.value as int)
}

/// The (name, value) pairs of the entries that started this frame.
pub open spec fn started_views(entries: Seq<ValueEntry>, prev: Map<(Context, Seq<char>), int>) -> Seq<
    (Seq<char>, int),
>
    decreases entries.len(),
{
    if entries.len() == 0 {
        Seq::empty()
    } else {
        let rest = started_views(entries.drop_last(), prev);
        let e = entries.last();
        if entry_transition(e, prev) == Transition::Started {
            rest.push((e.action@, e.value as int))
        } else {
            rest
        }
    }
}

/// The (name, value) pairs of the entries that continue this frame.
pub open spec fn continuing_views(
    entries: Seq<ValueEntry>,
    prev: Map<(Context, Seq<char>), int>,
) -> Seq<(Seq<char>, int)>
    decreases entries.len(),
{
    if entries.len() == 0 {
        Seq::empty()
    } else {
        let rest = continuing_views(entries.drop_last(), prev);
        let e = entries.last();
        if entry_transition(e, prev) == Transition::Continuing {
            rest.push((e.action@, e.value as int))
        } else {
            rest
        }
    }
}

/// The (name, value) pairs of the entries that are active this frame:
/// those that started or continue.  A finished entry's value is 0, so
/// it is not active.
pub open spec fn active_views(entries: Seq<ValueEntry>, prev: Map<(Context, Seq<char>), int>) -> Seq<
    (Seq<char>, int),
>
    decreases entries.len(),
{
    if entries.len() == 0 {
        Seq::empty()
    } else {
        let rest = active_views(entries.drop_last(), prev);
        let e = entries.last();
        if entry_transition(e, prev) == Transition::Started || entry_transition(e, prev)
            == Transition::Continuing {
            rest.push((e.action@, e.value as int))
        } else {
            rest
        }
    }
}

/// The names of the entries that finished this frame.
pub open spec fn finished_views(entries: Seq<ValueEntry>, prev: Map<(Context, Seq<char>), int>) -> Seq<
    Seq<char>,
>
    decreases entries.len(),
{
    if entries.len() == 0 {
        Seq::empty()
    } else {
        let rest = finished_views(entries.drop_last(), prev);
        let e = entries.last();
        if entry_transition(e, prev) == Transition::Finished {
            rest.push(e.action@)
        } else {
            rest
        }
    }
}

/// Whether the emitted `Active` events carry exactly the views `s`.
pub open spec fn active_events_match(v: Seq<InputActionActive>, s: Seq<(Seq<char>, int)>) -> bool {
    v.len() == s.len() && forall|i: int|
        0 <= i < s.len() ==> (#[trigger] v[i]).0@ == s[i].0 && v[i].1 == s[i].1
}

/// Whether the emitted `Started` events carry exactly the views `s`.
pub open spec fn started_events_match(v: Seq<InputActionStarted>, s: Seq<(Seq<char>, int)>) -> bool {
    v.len() == s.len() && forall|i: int|
        0 <= i < s.len() ==> (#[trigger] v[i]).0@ == s[i].0 && v[i].1 == s[i].1
}

/// Whether the emitted `Continuing` events carry exactly the views `s`.
pub open spec fn continuing_events_match(
    v: Seq<InputActionContinuing>,
    s: Seq<(Seq<char>, int)>,
) -> bool {
    v.len() == s.len() && forall|i: int|
        0 <= i < s.len() ==> (#[trigger] v[i]).0@ == s[i].0 && v[i].1 == s[i].1
}

/// Whether the emitted `Finished` events carry exactly the names `s`.
pub open spec fn finished_events_match(v: Seq<InputActionFinished>, s: Seq<Seq<char>>) -> bool {
    v.len() == s.len() && forall|i: int| 0 <= i < s.len() ==> (#[trigger] v[i]).0@ == s[i]
}

/// Whether `ev` holds exactly the events of a frame whose current
/// entries are `entries` and whose previous values are `prev`.
pub open spec fn frame_events_match(
    ev: FrameEvents,
    entries: Seq<ValueEntry>,
    prev: Map<(Context, Seq<char>), int>,
) -> bool {
    &&& active_events_match(ev.active@, active_views(entries, prev))
    &&& started_events_match(ev.started@, started_views(entries, prev))
    &&& continuing_events_match(ev.continuing@, continuing_views(entries, prev))
    &&& finished_events_match(ev.finished@, finished_views(entries, prev))
}

/// The current-frame values after all five samplers ran against one
/// snapshot, in sampler order: keyboard, mouse buttons, mouse axes,
/// gamepad buttons, gamepad axes.
pub open spec fn frame_sampled(
    im: InputMapper,
    state: Context,
    snap: SnapshotView,
    vals: Map<(Context, Seq<char>), int>,
) -> Map<(Context, Seq<char>), int> {
    let v1 = keyboard_sampled(
        im.keyboard_binding.entries(),
        state,
        snap.held_keys,
        snap.just_released_keys,
        vals,
    );
    let v2 = mouse_button_sampled(
        im.mouse_button_binding.entries(),
        state,
        snap.held_mouse_buttons,
        snap.just_released_mouse_buttons,
        v1,
    );
    let v3 = mouse_axis_sampled(im.mouse_axis_binding@, state, snap.mouse_motion, v2);
    let v4 = gamepad_button_sampled(
        im.gamepad_button_binding@,
        state,
        snap.gamepad_button_events,
        v3,
    );
    gamepad_axis_sampled(im.gamepad_axis_binding@, state, snap.gamepad_axis_events, v4)
}

/// A frame without input writes at most explicit zeros: starting from
/// an all-zero table, the sampled table is again all-zero.
pub proof fn lemma_quiet_sampled(
    im: InputMapper,
    state: Context,
    snap: SnapshotView,
    vals: Map<(Context, Seq<char>), int>,
)
    requires
        snap.quiet(),
        all_zero(vals),
    ensures
        all_zero(frame_sampled(im, state, snap, vals)),
{
    assert(snap.held_keys =~= Seq::<Key>::empty());
    assert(snap.just_released_keys =~= Seq::<Key>::empty());
    assert(snap.held_mouse_buttons =~= Seq::<MouseButton>::empty());
    assert(snap.just_released_mouse_buttons =~= Seq::<MouseButton>::empty());
    lemma_keyboard_quiet(im.keyboard_binding.entries(), state, vals);
    let v1 = keyboard_sampled(
        im.keyboard_binding.entries(),
        state,
        snap.held_keys,
        snap.just_released_keys,
        vals,
    );
    assert(v1 == vals);
    lemma_mouse_button_quiet(im.mouse_button_binding.entries(), state, v1);
    let v2 = mouse_button_sampled(
        im.mouse_button_binding.entries(),
        state,
        snap.held_mouse_buttons,
        snap.just_released_mouse_buttons,
        v1,
    );
    assert(v2 == v1);
    let px = PhysicalInput::MouseAxis(MouseAxis::PositiveX);
    let nx = PhysicalInput::MouseAxis(MouseAxis::NegativeX);
    let py = PhysicalInput::MouseAxis(MouseAxis::PositiveY);
    let ny = PhysicalInput::MouseAxis(MouseAxis::NegativeY);
    let b = im.mouse_axis_binding@;
    lemma_half_axis_write_zero(b, state, px, nx, v2);
    lemma_half_axis_write_zero(
        b,
        state,
        py,
        ny,
        crate::input::axis::half_axis_write(b, state, px, nx, 0, v2),
    );
    let v3 = mouse_axis_sampled(b, state, snap.mouse_motion, v2);
    assert(all_zero(v3));
    let v4 = gamepad_button_sampled(im.gamepad_button_binding@, state, snap.gamepad_button_events, v3);
    assert(snap.gamepad_button_events.len() == 0);
    assert(v4 == v3);
    let v5 = gamepad_axis_sampled(im.gamepad_axis_binding@, state, snap.gamepad_axis_events, v4);
    assert(snap.gamepad_axis_events.len() == 0);
    assert(v5 == v4);
}

/// Entries that are all zero, classified against an all-zero previous
/// table, emit no events.
pub proof fn lemma_no_events_when_zero(entries: Seq<ValueEntry>, prev: Map<(Context, Seq<char>), int>)
    requires
        forall|i: int| 0 <= i < entries.len() ==> #[trigger] entries[i].value == 0,
        all_zero(prev),
    ensures
        active_views(entries, prev).len() == 0,
        started_views(entries, prev).len() == 0,
        continuing_views(entries, prev).len() == 0,
        finished_views(entries, prev).len() == 0,
    decreases entries.len(),
{
    if entries.len() > 0 {
        let dl = entries.drop_last();
        assert forall|i: int| 0 <= i < dl.len() implies #[trigger] dl[i].value == 0 by {
            assert(dl[i] == entries[i]);
        }
        lemma_no_events_when_zero(dl, prev);
        let e = entries.last();
        assert(e.value == 0);
        if prev.contains_key((e.ctx, e.action@)) {
            assert(lookup_or_zero(prev, (e.ctx, e.action@)) == 0);
        }
        assert(entry_transition(e, prev) == Transition::Idle);
    }
}

impl InputMapper {
    /// Runs the end-of-frame cycle: classifies every action recorded
    /// this frame against the previous frame and collects the
    /// lifecycle events, then promotes the current table into the
    /// previous one (full replace) and clears the current table.
    pub fn event_cycle(&mut self) -> (ev: FrameEvents)
        requires
            old(self).wf(),
        ensures
            final(self).wf(),
            frame_events_match(
                ev,
                old(self).action_value.entries(),
                old(self).previous_action_value@,
            ),
            final(self).previous_action_value@ == old(self).action_value@,
            final(self).action_value@ == Map::<(Context, Seq<char>), int>::empty(),
            final(self).action_value.entries() == Seq::<ValueEntry>::empty(),
            final(self).keyboard_binding == old(self).keyboard_binding,
            final(self).mouse_button_binding == old(self).mouse_button_binding,
            final(self).mouse_axis_binding == old(self).mouse_axis_binding,
            final(self).gamepad_axis_binding == old(self).gamepad_axis_binding,
            final(self).gamepad_button_binding == old(self).gamepad_button_binding,
    {
        let ghost entries = self.action_value.entries();
        let ghost prev = self.previous_action_value@;
        let mut ev = FrameEvents {
            active: Vec::new(),
            started: Vec::new(),
            continuing: Vec::new(),
            finished: Vec::new(),
        };
        let n = self.action_value.items.len();
        let mut i: usize = 0;
        while i < n
            invariant
                old(self).wf(),
                i <= n,
                entries == old(self).action_value.entries(),
                prev == old(self).previous_action_value@,
                n == self.action_value.items@.len(),
                self.action_value == old(self).action_value,
                self.previous_action_value == old(self).previous_action_value,
                self.keyboard_binding == old(self).keyboard_binding,
                self.mouse_button_binding == old(self).mouse_button_binding,
                self.mouse_axis_binding == old(self).mouse_axis_binding,
                self.gamepad_axis_binding == old(self).gamepad_axis_binding,
                self.gamepad_button_binding == old(self).gamepad_button_binding,
                active_events_match(ev.active@, active_views(entries.take(i as int), prev)),
                started_events_match(ev.started@, started_views(entries.take(i as int), prev)),
                continuing_events_match(
                    ev.continuing@,
                    continuing_views(entries.take(i as int), prev),
                ),
                finished_events_match(ev.finished@, finished_views(entries.take(i as int), prev)),
            decreases n - i,
        {
            proof {
                assert(crate::input::values::values_in_range(entries));
                assert(0 <= entries[i as int].value <= FULL_VALUE);
            }
            let e_ctx = self.action_value.items[i].ctx;
            let e_val = self.action_value.items[i].value;
            let prev_v = self.previous_action_value.get(e_ctx, &self.action_value.items[i].action);
            let t = classify(prev_v, e_val);
            match t {
                Transition::Started => {
                    let name = self.action_value.items[i].action.clone();
                    ev.active.push(InputActionActive(name, e_val));
                    let name2 = self.action_value.items[i].action.clone();
                    ev.started.push(InputActionStarted(name2, e_val));
                },
                Transition::Continuing => {
                    let name = self.action_value.items[i].action.clone();
                    ev.active.push(InputActionActive(name, e_val));
                    let name2 = self.action_value.items[i].action.clone();
                    ev.continuing.push(InputActionContinuing(name2, e_val));
                },
                Transition::Finished => {
                    let name = self.action_value.items[i].action.clone();
                    ev.finished.push(InputActionFinished(name));
                },
                Transition::Idle => {},
            }
            proof {
                assert(entries.take(i as int + 1).drop_last() =~= entries.take(i as int));
                assert(entries.take(i as int + 1).last() == entries[i as int]);
                assert(entry_transition(entries[i as int], prev) == t);
            }
            i += 1;
        }
        proof {
            assert(entries.take(n as int) =~= entries);
        }
        core::mem::swap(&mut self.previous_action_value, &mut self.action_value);
        self.action_value.clear();
        ev
    }

    /// Runs one whole frame under `state`: the five samplers against
    /// `snapshot`, then the event cycle.  Afterwards the sampled
    /// values stand in the previous table and the current table is
    /// empty; the returned events classify the sampled values against
    /// the values the previous table held before the call.
    ///
    /// A frame without input never emits an event and keeps all-zero
    /// tables all-zero.
    pub fn frame(&mut self, state: Context, snapshot: &InputSnapshot) -> (ev: FrameEvents)
        requires
            old(self).wf(),
        ensures
            final(self).wf(),
            final(self).previous_action_value@ == frame_sampled(
                *old(self),
                state,
                snapshot@,
                old(self).action_value@,
            ),
            final(self).action_value@ == Map::<(Context, Seq<char>), int>::empty(),
            final(self).action_value.entries() == Seq::<ValueEntry>::empty(),
            final(self).keyboard_binding == old(self).keyboard_binding,
            final(self).mouse_button_binding == old(self).mouse_button_binding,
            final(self).mouse_axis_binding == old(self).mouse_axis_binding,
            final(self).gamepad_axis_binding == old(self).gamepad_axis_binding,
            final(self).gamepad_button_binding == old(self).gamepad_button_binding,
            exists|es: Seq<ValueEntry>|
                {
                    &&& unique_value_keys(es)
                    &&& values_in_range(es)
                    &&& value_map(es) == frame_sampled(
                        *old(self),
                        state,
                        snapshot@,
                        old(self).action_value@,
                    )
                    &&& #[trigger] frame_events_match(ev, es, old(self).previous_action_value@)
                },
            (snapshot@.quiet() && all_zero(old(self).action_value@) && all_zero(
                old(self).previous_action_value@,
            )) ==> (all_zero(final(self).previous_action_value@) && ev.active@.len() == 0
                && ev.started@.len() == 0 && ev.continuing@.len() == 0 && ev.finished@.len() == 0),
    {
        self.keyboard_key_press_system(state, &snapshot.held_keys, &snapshot.just_released_keys);
        self.mouse_button_press_system(
            state,
            &snapshot.held_mouse_buttons,
            &snapshot.just_released_mouse_buttons,
        );
        self.mouse_axis_move_system(state, snapshot.mouse_motion);
        self.gamepad_button_press_system(state, &snapshot.gamepad_button_events);
        self.gamepad_axis_move_system(state, &snapshot.gamepad_axis_events);
        let ghost es = self.action_value.entries();
        let ghost sampled = self.action_value@;
        proof {
            assert(sampled == frame_sampled(*old(self), state, snapshot@, old(self).action_value@));
        }
        let ev = self.event_cycle();
        proof {
            assert(unique_value_keys(es) && values_in_range(es) && value_map(es) == sampled);
            assert(frame_events_match(ev, es, old(self).previous_action_value@));
            if snapshot@.quiet() && all_zero(old(self).action_value@) && all_zero(
                old(self).previous_action_value@,
            ) {
                lemma_quiet_sampled(*old(self), state, snapshot@, old(self).action_value@);
                lemma_entries_zero(es);
                lemma_no_events_when_zero(es, old(self).previous_action_value@);
            }
        }
        ev
    }
}

/// A snapshot view of a frame in which no input arrived.
pub open spec fn quiet_view() -> SnapshotView {
    SnapshotView {
        held_keys: Seq::empty(),
        just_released_keys: Seq::empty(),
        held_mouse_buttons: Seq::empty(),
        just_released_mouse_buttons: Seq::empty(),
        mouse_motion: None,
        gamepad_button_events: Seq::empty(),
        gamepad_axis_events: Seq::empty(),
    }
}

/// The pair (current, previous) of value generations after `n` frames
/// without any input, as [`frame`](InputMapper::frame) transforms
/// them: each frame promotes the sampled table and clears the current
/// one.
pub open spec fn quiet_run(
    im: InputMapper,
    state: Context,
    cur: Map<(Context, Seq<char>), int>,
    prev: Map<(Context, Seq<char>), int>,
    n: nat,
) -> (Map<(Context, Seq<char>), int>, Map<(Context, Seq<char>), int>)
    decreases n,
{
    if n == 0 {
        (cur, prev)
    } else {
        let sampled = frame_sampled(im, state, quiet_view(), cur);
        quiet_run(im, state, Map::empty(), sampled, (n - 1) as nat)
    }
}

/// After any number of frames of sampling with no input, both value
/// generations stay all-zero, so every action still reads as 0; by
/// [`InputMapper::frame`]'s contract and [`lemma_no_events_when_zero`],
/// none of those frames emits an event.
pub proof fn lemma_quiet_frames(
    im: InputMapper,
    state: Context,
    cur: Map<(Context, Seq<char>), int>,
    prev: Map<(Context, Seq<char>), int>,
    n: nat,
)
    requires
        all_zero(cur),
        all_zero(prev),
    ensures
        all_zero(quiet_run(im, state, cur, prev, n).0),
        all_zero(quiet_run(im, state, cur, prev, n).1),
    decreases n,
{
    if n > 0 {
        lemma_quiet_sampled(im, state, quiet_view(), cur);
        let sampled = frame_sampled(im, state, quiet_view(), cur);
        lemma_quiet_frames(im, state, Map::empty(), sampled, (n - 1) as nat);
    }
}

} // verus!
