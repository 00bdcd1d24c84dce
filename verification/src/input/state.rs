//! The transition classifier: a pure function of an action's previous
//! and current value, and the per-action queries derived from it.

use vstd::prelude::*;

use crate::input::binding::Context;
use crate::input::values::{lookup_or_zero, FULL_VALUE};
use crate::InputMapper;

verus! {

/// The lifecycle stage of an action, derived from its value in the
/// previous and the current frame.
#[derive(Clone, Copy, PartialEq, Eq, Structural, Debug)]
pub enum Transition {
    /// Unset in both frames: no event.
    Idle,
    /// Zero before, positive now.
    Started,
    /// Positive before, positive now; fires every frame the action
    /// stays held, not only on change.
    Continuing,
    /// Positive before, zero now.
    Finished,
}

/// The transition for a previous/current value pair.
pub open spec fn classify_spec(prev: int, curr: int) -> Transition {
    if prev == 0 && curr > 0 {
        Transition::Started
    } else if prev > 0 && curr > 0 {
        Transition::Continuing
    } else if prev > 0 && curr == 0 {
        Transition::Finished
    } else {
        Transition::Idle
    }
}

/// Classifies a previous/current value pair.
pub fn classify(prev: i32, curr: i32) -> (t: Transition)
    requires
        prev >= 0,
        curr >= 0,
    ensures
        t == classify_spec(prev as int, curr as int),
{
    if prev == 0 && curr > 0 {
        Transition::Started
    } else if prev > 0 && curr > 0 {
        Transition::Continuing
    } else if prev > 0 && curr == 0 {
        Transition::Finished
    } else {
        Transition::Idle
    }
}

impl InputMapper {
    /// The transition the given action undergoes this frame.
    pub open spec fn transition_of(&self, state: Context, action: Seq<char>) -> Transition {
        classify_spec(
            lookup_or_zero(self.previous_action_value@, (state, action)),
            lookup_or_zero(self.action_value@, (state, action)),
        )
    }

    /// The action's value in the previous frame; an unset pair reads
    /// as 0, whatever the context and the name.
    pub fn get_previous_value(&self, state: Context, action: &String) -> (r: i32)
        requires
            self.wf(),
        ensures
            r == lookup_or_zero(self.previous_action_value@, (state, action@)),
            !self.previous_action_value@.contains_key((state, action@)) ==> r == 0,
            0 <= r <= FULL_VALUE,
    {
        self.previous_action_value.get(state, action)
    }

    /// The action's value in the current frame; an unset pair reads
    /// as 0, whatever the context and the name.
    pub fn get_current_value(&self, state: Context, action: &String) -> (r: i32)
        requires
            self.wf(),
        ensures
            r == lookup_or_zero(self.action_value@, (state, action@)),
            !self.action_value@.contains_key((state, action@)) ==> r == 0,
            0 <= r <= FULL_VALUE,
    {
        self.action_value.get(state, action)
    }

    /// Whether the action went from unset to a positive value.
    pub fn is_started(&self, state: Context, action: &String) -> (r: bool)
        requires
            self.wf(),
        ensures
            r == (self.transition_of(state, action@) == Transition::Started),
    {
        let prev = self.get_previous_value(state, action);
        let curr = self.get_current_value(state, action);
        prev == 0 && curr > 0
    }

    /// Whether the action stayed at a positive value.
    pub fn is_continuing(&self, state: Context, action: &String) -> (r: bool)
        requires
            self.wf(),
        ensures
            r == (self.transition_of(state, action@) == Transition::Continuing),
    {
        let prev = self.get_previous_value(state, action);
        let curr = self.get_current_value(state, action);
        prev > 0 && curr > 0
    }

    /// Whether the action went from a positive value to zero.
    pub fn is_finished(&self, state: Context, action: &String) -> (r: bool)
        requires
            self.wf(),
        ensures
            r == (self.transition_of(state, action@) == Transition::Finished),
    {
        let prev = self.get_previous_value(state, action);
        let curr = self.get_current_value(state, action);
        prev > 0 && curr == 0
    }

    /// Whether the action started, continues or finished this frame:
    /// the supercategory of the three specific transitions.  (The
    /// event cycle emits an `Active` event only for started and
    /// continuing actions, whose value is positive; a finished
    /// action's `Finished` event comes alone.)
    pub fn is_active(&self, state: Context, action: &String) -> (r: bool)
        requires
            self.wf(),
        ensures
            r == (self.transition_of(state, action@) != Transition::Idle),
    {
        self.is_started(state, action) || self.is_continuing(state, action) || self.is_finished(
            state,
            action,
        )
    }
}

} // verus!
