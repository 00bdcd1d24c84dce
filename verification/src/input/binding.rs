//! Binding tables: mappings from `(context, physical input)` to action
//! names, one table per input class.
//!
//! A table is a sequence of entries with unique keys; its abstract value
//! is the finite map [`binding_map`] over those entries.  `bind`
//! overwrites (last write wins) and `unbind` of an absent key is a
//! no-op, so setup code may call both freely.

use vstd::prelude::*;

use crate::input::gamepad::{GamepadAxis, GamepadButton};
use crate::input::keyboard::Key;
use crate::input::mouse::{MouseAxis, MouseButton};

verus! {

/// An externally owned discrete tag that scopes which bindings are live
/// in a given frame.  The host maps its own mode or scenario type onto
/// these tags; the core only compares them for equality.
#[derive(Clone, Copy, PartialEq, Eq, Structural, Hash, Debug)]
pub struct Context(pub u32);

/// A bindable physical input, one variant per input class.
#[derive(Clone, Copy, PartialEq, Eq, Structural, Hash, Debug)]
pub enum PhysicalInput {
    /// A keyboard key.
    Key(Key),
    /// A mouse button.
    MouseButton(MouseButton),
    /// One direction of the mouse's movement.
    MouseAxis(MouseAxis),
    /// A gamepad button.
    GamepadButton(GamepadButton),
    /// One direction of a gamepad analog axis.
    GamepadAxis(GamepadAxis),
}

/// One binding: under context `ctx`, input `input` drives the action
/// named `action`.
pub struct Binding {
    /// The context in which this binding is live.
    pub ctx: Context,
    /// The physical input being bound.
    pub input: PhysicalInput,
    /// The name of the action the input drives.
    pub action: String,
}

/// Whether no two entries of `entries` share a `(context, input)` key.
pub open spec fn unique_binding_keys(entries: Seq<Binding>) -> bool {
    forall|i: int, j: int|
        0 <= i < j < entries.len() ==> !(entries[i].ctx == entries[j].ctx
            && entries[i].input == entries[j].input)
}

/// The mapping that a sequence of binding entries stands for; a later
/// entry overrides an earlier one with the same key.
pub open spec fn binding_map(entries: Seq<Binding>) -> Map<(Context, PhysicalInput), Seq<char>>
    decreases entries.len(),
{
    if entries.len() == 0 {
        Map::empty()
    } else {
        binding_map(entries.drop_last()).insert(
            (entries.last().ctx, entries.last().input),
            entries.last().action@,
        )
    }
}

/// A key held by no entry is absent from the mapping.
pub proof fn lemma_binding_map_absent(entries: Seq<Binding>, k: (Context, PhysicalInput))
    requires
        forall|i: int|
            0 <= i < entries.len() ==> !(entries[i].ctx == k.0 && entries[i].input == k.1),
    ensures
        !binding_map(entries).contains_key(k),
    decreases entries.len(),
{
    if entries.len() > 0 {
        let dl = entries.drop_last();
        assert forall|i: int|
            0 <= i < dl.len() implies !(dl[i].ctx == k.0 && dl[i].input == k.1) by {
            assert(dl[i] == entries[i]);
        }
        lemma_binding_map_absent(dl, k);
        assert(!(entries.last().ctx == k.0 && entries.last().input == k.1));
    }
}

/// With unique keys, the entry holding a key gives the mapping's value.
pub proof fn lemma_binding_map_present(entries: Seq<Binding>, i: int)
    requires
        unique_binding_keys(entries),
        0 <= i < entries.len(),
    ensures
        binding_map(entries).contains_key((entries[i].ctx, entries[i].input)),
        binding_map(entries)[(entries[i].ctx, entries[i].input)] == entries[i].action@,
    decreases entries.len(),
{
    let last = entries.len() - 1;
    let dl = entries.drop_last();
    if i < last {
        assert forall|p: int, q: int|
            0 <= p < q < dl.len() implies !(dl[p].ctx == dl[q].ctx && dl[p].input == dl[q].input) by {
            assert(dl[p] == entries[p] && dl[q] == entries[q]);
        }
        lemma_binding_map_present(dl, i);
        assert(dl[i] == entries[i]);
        assert(!(entries[i].ctx == entries[last].ctx && entries[i].input == entries[last].input));
    }
}

/// Dropping the last entry keeps the remaining keys unique.
pub proof fn lemma_unique_drop_last(entries: Seq<Binding>)
    requires
        unique_binding_keys(entries),
        entries.len() > 0,
    ensures
        unique_binding_keys(entries.drop_last()),
{
    let dl = entries.drop_last();
    assert forall|p: int, q: int|
        0 <= p < q < dl.len() implies !(dl[p].ctx == dl[q].ctx && dl[p].input == dl[q].input) by {
        assert(dl[p] == entries[p] && dl[q] == entries[q]);
    }
}

/// Replacing the entry that holds a key is an insert on the mapping.
pub proof fn lemma_binding_map_update(entries: Seq<Binding>, i: int, b: Binding)
    requires
        unique_binding_keys(entries),
        0 <= i < entries.len(),
        entries[i].ctx == b.ctx && entries[i].input == b.input,
    ensures
        binding_map(entries.update(i, b)) == binding_map(entries).insert((b.ctx, b.input), b.action@),
    decreases entries.len(),
{
    let last = entries.len() - 1;
    let dl = entries.drop_last();
    let upd = entries.update(i, b);
    if i == last {
        assert(upd.drop_last() =~= dl);
        assert(upd.last() == b);
        assert(binding_map(upd) =~= binding_map(entries).insert((b.ctx, b.input), b.action@));
    } else {
        lemma_unique_drop_last(entries);
        assert(dl[i] == entries[i]);
        lemma_binding_map_update(dl, i, b);
        assert(upd.drop_last() =~= dl.update(i, b));
        assert(upd.last() == entries.last());
        // the two keys differ, so the two inserts commute
        assert(!(entries[i].ctx == entries[last].ctx && entries[i].input == entries[last].input));
        assert(binding_map(upd) =~= binding_map(entries).insert((b.ctx, b.input), b.action@));
    }
}

/// Removing the entry that holds a key is a remove on the mapping.
pub proof fn lemma_binding_map_remove(entries: Seq<Binding>, i: int)
    requires
        unique_binding_keys(entries),
        0 <= i < entries.len(),
    ensures
        binding_map(entries.remove(i)) == binding_map(entries).remove(
            (entries[i].ctx, entries[i].input),
        ),
    decreases entries.len(),
{
    let last = entries.len() - 1;
    let dl = entries.drop_last();
    let k = (entries[i].ctx, entries[i].input);
    lemma_unique_drop_last(entries);
    if i == last {
        assert(entries.remove(i) =~= dl);
        assert forall|j: int|
            0 <= j < dl.len() implies !(dl[j].ctx == k.0 && dl[j].input == k.1) by {
            assert(dl[j] == entries[j]);
        }
        lemma_binding_map_absent(dl, k);
        assert(binding_map(entries.remove(i)) =~= binding_map(entries).remove(k));
    } else {
        assert(dl[i] == entries[i]);
        lemma_binding_map_remove(dl, i);
        assert(entries.remove(i).drop_last() =~= dl.remove(i));
        assert(entries.remove(i).last() == entries.last());
        assert(!(entries[i].ctx == entries[last].ctx && entries[i].input == entries[last].input));
        assert(binding_map(entries.remove(i)) =~= binding_map(entries).remove(k));
    }
}

/// Whether some entry of `entries` drives action `a` under `state`.
pub open spec fn binds_action(entries: Seq<Binding>, state: Context, a: Seq<char>) -> bool {
    exists|i: int| 0 <= i < entries.len() && entries[i].ctx == state && entries[i].action@ == a
}

/// Binding the same key twice leaves only the second action bound;
/// the first action is no longer reachable through that key.
pub proof fn lemma_bind_overwrite(
    m: Map<(Context, PhysicalInput), Seq<char>>,
    k: (Context, PhysicalInput),
    a1: Seq<char>,
    a2: Seq<char>,
)
    ensures
        m.insert(k, a1).insert(k, a2) == m.insert(k, a2),
        m.insert(k, a2)[k] == a2,
{
    assert(m.insert(k, a1).insert(k, a2) =~= m.insert(k, a2));
}

/// How `bind` changes a table's entries: the entry holding the key is
/// replaced in place when one exists, else a new entry is appended.
pub open spec fn bind_step(pre: Seq<Binding>, post: Seq<Binding>, b: Binding) -> bool {
    if binding_map(pre).contains_key((b.ctx, b.input)) {
        exists|i: int|
            {
                &&& 0 <= i < pre.len()
                &&& pre[i].ctx == b.ctx && pre[i].input == b.input
                &&& post == pre.update(i, b)
            }
    } else {
        post == pre.push(b)
    }
}

/// How `unbind` changes a table's entries: the entry holding the key
/// is removed when one exists, else nothing changes.
pub open spec fn unbind_step(pre: Seq<Binding>, post: Seq<Binding>, k: (Context, PhysicalInput)) -> bool {
    if binding_map(pre).contains_key(k) {
        exists|i: int|
            {
                &&& 0 <= i < pre.len()
                &&& pre[i].ctx == k.0 && pre[i].input == k.1
                &&& post == pre.remove(i)
            }
    } else {
        post == pre
    }
}

/// A binding table for one input class.
pub struct BindingTable {
    /// The entries; keys are unique when the table is well formed.
    pub items: Vec<Binding>,
}

impl View for BindingTable {
    type V = Map<(Context, PhysicalInput), Seq<char>>;

    open spec fn view(&self) -> Self::V {
        binding_map(self.items@)
    }
}

impl BindingTable {
    /// The entries in the order the samplers walk them.
    pub open spec fn entries(&self) -> Seq<Binding> {
        self.items@
    }

    /// No two entries share a `(context, input)` key.
    pub open spec fn wf(&self) -> bool {
        unique_binding_keys(self.items@)
    }

    /// An empty table.
    pub fn new() -> (r: Self)
        ensures
            r.wf(),
            r@ == Map::<(Context, PhysicalInput), Seq<char>>::empty(),
            r.entries() == Seq::<Binding>::empty(),
    {
        BindingTable { items: Vec::new() }
    }

    /// The index of the entry holding the key, if any entry does.
    fn find_index(&self, ctx: Context, input: PhysicalInput) -> (r: Option<usize>)
        ensures
            match r {
                Some(i) => i < self.items@.len() && self.items@[i as int].ctx == ctx
                    && self.items@[i as int].input == input,
                None => forall|i: int|
                    0 <= i < self.items@.len() ==> !(self.items@[i].ctx == ctx
                        && self.items@[i].input == input),
            },
    {
        let mut i: usize = 0;
        while i < self.items.len()
            invariant
                i <= self.items@.len(),
                forall|j: int|
                    0 <= j < i ==> !(self.items@[j].ctx == ctx && self.items@[j].input == input),
            decreases self.items@.len() - i,
        {
            if self.items[i].ctx == ctx && self.items[i].input == input {
                return Some(i);
            }
            i += 1;
        }
        None
    }

    /// Inserts or overwrites the mapping for `(ctx, input)`.
    pub fn bind(&mut self, ctx: Context, input: PhysicalInput, action: String)
        requires
            old(self).wf(),
        ensures
            final(self).wf(),
            final(self)@ == old(self)@.insert((ctx, input), action@),
            bind_step(
                old(self).entries(),
                final(self).entries(),
                (Binding { ctx: ctx, input: input, action: action }),
            ),
    {
        let ghost prior = self.items@;
        let b = Binding { ctx: ctx, input: input, action: action };
        let idx = self.find_index(ctx, input);
        match idx {
            Some(i) => {
                self.items[i] = b;
                proof {
                    lemma_binding_map_present(prior, i as int);
                    lemma_binding_map_update(prior, i as int, self.items@[i as int]);
                    assert forall|p: int, q: int|
                        0 <= p < q < self.items@.len() implies !(self.items@[p].ctx
                            == self.items@[q].ctx && self.items@[p].input
                            == self.items@[q].input) by {
                        if p != i && q != i {
                            assert(self.items@[p] == prior[p] && self.items@[q] == prior[q]);
                        } else if p == i {
                            assert(self.items@[q] == prior[q]);
                            assert(!(prior[i as int].ctx == prior[q].ctx && prior[i as int].input
                                == prior[q].input));
                        } else {
                            assert(self.items@[p] == prior[p]);
                            assert(!(prior[p].ctx == prior[i as int].ctx && prior[p].input
                                == prior[i as int].input));
                        }
                    }
                }
            },
            None => {
                self.items.push(b);
                proof {
                    lemma_binding_map_absent(prior, (ctx, input));
                    assert(self.items@.drop_last() =~= prior);
                    assert(self.items@.last() == self.items@[prior.len() as int]);
                    assert forall|p: int, q: int|
                        0 <= p < q < self.items@.len() implies !(self.items@[p].ctx
                            == self.items@[q].ctx && self.items@[p].input
                            == self.items@[q].input) by {
                        if q < prior.len() {
                            assert(self.items@[p] == prior[p] && self.items@[q] == prior[q]);
                        } else {
                            assert(self.items@[p] == prior[p]);
                        }
                    }
                }
            },
        }
    }

    /// Removes the mapping for `(ctx, input)`; absent keys are a no-op.
    pub fn unbind(&mut self, ctx: Context, input: PhysicalInput)
        requires
            old(self).wf(),
        ensures
            final(self).wf(),
            final(self)@ == old(self)@.remove((ctx, input)),
            unbind_step(old(self).entries(), final(self).entries(), (ctx, input)),
    {
        let ghost prior = self.items@;
        let idx = self.find_index(ctx, input);
        match idx {
            Some(i) => {
                self.items.remove(i);
                proof {
                    lemma_binding_map_present(prior, i as int);
                    lemma_binding_map_remove(prior, i as int);
                    assert forall|p: int, q: int|
                        0 <= p < q < self.items@.len() implies !(self.items@[p].ctx
                            == self.items@[q].ctx && self.items@[p].input
                            == self.items@[q].input) by {
                        let p0 = if p < i { p } else { p + 1 };
                        let q0 = if q < i { q } else { q + 1 };
                        assert(self.items@[p] == prior[p0] && self.items@[q] == prior[q0]);
                        assert(!(prior[p0].ctx == prior[q0].ctx && prior[p0].input
                            == prior[q0].input));
                    }
                }
            },
            None => {
                proof {
                    lemma_binding_map_absent(prior, (ctx, input));
                    assert(final(self)@ =~= old(self)@.remove((ctx, input)));
                }
            },
        }
    }

    /// The action bound to `(ctx, input)`, if that key is bound.
    pub fn get(&self, ctx: Context, input: PhysicalInput) -> (r: Option<&String>)
        requires
            self.wf(),
        ensures
            match r {
                Some(a) => self@.contains_key((ctx, input)) && a@ == self@[(ctx, input)],
                None => !self@.contains_key((ctx, input)),
            },
    {
        let idx = self.find_index(ctx, input);
        match idx {
            Some(i) => {
                proof {
                    lemma_binding_map_present(self.items@, i as int);
                }
                Some(&self.items[i].action)
            },
            None => {
                proof {
                    lemma_binding_map_absent(self.items@, (ctx, input));
                }
                None
            },
        }
    }
}

} // verus!
