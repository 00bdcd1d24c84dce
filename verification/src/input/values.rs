//! The action-value store: a mapping from `(context, action name)` to a
//! fixed-point magnitude, kept in two generations ("current" and
//! "previous").
//!
//! Reads default to 0 for unset keys.  Button samplers write only on
//! evidence (held or just released), so an action nobody touched this
//! frame simply has no entry; axis samplers additionally write
//! explicit zeros when an axis rests, which is what lets a finished
//! axis action fire its transition.

use vstd::prelude::*;

use crate::input::binding::Context;

verus! {

/// Fixed-point scale: 1000 stands for a magnitude of 1.0, a full axis
/// deflection or a fully pressed button.
pub const FULL_VALUE: i32 = 1000;

/// `v` clamped into `[-FULL_VALUE, FULL_VALUE]`.
pub open spec fn clamp_signed(v: int) -> int {
    if v < -(FULL_VALUE as int) {
        -(FULL_VALUE as int)
    } else if v > FULL_VALUE as int {
        FULL_VALUE as int
    } else {
        v
    }
}

/// `v` clamped into `[0, FULL_VALUE]`.
pub open spec fn clamp_magnitude(v: int) -> int {
    if v < 0 {
        0
    } else if v > FULL_VALUE as int {
        FULL_VALUE as int
    } else {
        v
    }
}

/// Clamps a signed axis value into `[-FULL_VALUE, FULL_VALUE]`.
pub fn clamp_signed_value(v: i32) -> (r: i32)
    ensures
        r == clamp_signed(v as int),
{
    if v < -FULL_VALUE {
        -FULL_VALUE
    } else if v > FULL_VALUE {
        FULL_VALUE
    } else {
        v
    }
}

/// Clamps a magnitude into `[0, FULL_VALUE]`.
pub fn clamp_magnitude_value(v: i32) -> (r: i32)
    ensures
        r == clamp_magnitude(v as int),
{
    if v < 0 {
        0
    } else if v > FULL_VALUE {
        FULL_VALUE
    } else {
        v
    }
}

/// One recorded value: under context `ctx`, the action named `action`
/// has magnitude `value` this generation.
pub struct ValueEntry {
    /// The context the value was sampled under.
    pub ctx: Context,
    /// The action's name.
    pub action: String,
    /// The sampled magnitude, in `[0, FULL_VALUE]`.
    pub value: i32,
}

/// Whether no two entries of `entries` share a `(context, action)` key.
pub open spec fn unique_value_keys(entries: Seq<ValueEntry>) -> bool {
    forall|i: int, j: int|
        0 <= i < j < entries.len() ==> !(entries[i].ctx == entries[j].ctx
            && entries[i].action@ == entries[j].action@)
}

/// Whether every recorded value lies in `[0, FULL_VALUE]`.
pub open spec fn values_in_range(entries: Seq<ValueEntry>) -> bool {
    forall|i: int| 0 <= i < entries.len() ==> 0 <= #[trigger] entries[i].value <= FULL_VALUE
}

/// The mapping that a sequence of value entries stands for; a later
/// entry overrides an earlier one with the same key.
pub open spec fn value_map(entries: Seq<ValueEntry>) -> Map<(Context, Seq<char>), int>
    decreases entries.len(),
{
    if entries.len() == 0 {
        Map::empty()
    } else {
        value_map(entries.drop_last()).insert(
            (entries.last().ctx, entries.last().action@),
            entries.last().value as int,
        )
    }
}

/// The recorded value for `k`, defaulting to 0 when `k` is unset.
pub open spec fn lookup_or_zero(m: Map<(Context, Seq<char>), int>, k: (Context, Seq<char>)) -> int {
    if m.contains_key(k) {
        m[k]
    } else {
        0
    }
}

/// Whether every key of `m` reads as 0; an empty table is all-zero.
pub open spec fn all_zero(m: Map<(Context, Seq<char>), int>) -> bool {
    forall|k: (Context, Seq<char>)| #[trigger] m.contains_key(k) ==> m[k] == 0
}

/// A key held by no entry is absent from the mapping.
pub proof fn lemma_value_map_absent(entries: Seq<ValueEntry>, k: (Context, Seq<char>))
    requires
        forall|i: int|
            0 <= i < entries.len() ==> !(entries[i].ctx == k.0 && entries[i].action@ == k.1),
    ensures
        !value_map(entries).contains_key(k),
    decreases entries.len(),
{
    if entries.len() > 0 {
        let dl = entries.drop_last();
        assert forall|i: int|
            0 <= i < dl.len() implies !(dl[i].ctx == k.0 && dl[i].action@ == k.1) by {
            assert(dl[i] == entries[i]);
        }
        lemma_value_map_absent(dl, k);
        assert(!(entries.last().ctx == k.0 && entries.last().action@ == k.1));
    }
}

/// With unique keys, the entry holding a key gives the mapping's value.
pub proof fn lemma_value_map_present(entries: Seq<ValueEntry>, i: int)
    requires
        unique_value_keys(entries),
        0 <= i < entries.len(),
    ensures
        value_map(entries).contains_key((entries[i].ctx, entries[i].action@)),
        value_map(entries)[(entries[i].ctx, entries[i].action@)] == entries[i].value as int,
    decreases entries.len(),
{
    let last = entries.len() - 1;
    let dl = entries.drop_last();
    if i < last {
        assert forall|p: int, q: int|
            0 <= p < q < dl.len() implies !(dl[p].ctx == dl[q].ctx && dl[p].action@
                == dl[q].action@) by {
            assert(dl[p] == entries[p] && dl[q] == entries[q]);
        }
        lemma_value_map_present(dl, i);
        assert(dl[i] == entries[i]);
        assert(!(entries[i].ctx == entries[last].ctx && entries[i].action@
            == entries[last].action@));
    }
}

/// Replacing the entry that holds a key is an insert on the mapping.
pub proof fn lemma_value_map_update(entries: Seq<ValueEntry>, i: int, e: ValueEntry)
    requires
        unique_value_keys(entries),
        0 <= i < entries.len(),
        entries[i].ctx == e.ctx && entries[i].action@ == e.action@,
    ensures
        value_map(entries.update(i, e)) == value_map(entries).insert(
            (e.ctx, e.action@),
            e.value as int,
        ),
    decreases entries.len(),
{
    let last = entries.len() - 1;
    let dl = entries.drop_last();
    let upd = entries.update(i, e);
    if i == last {
        assert(upd.drop_last() =~= dl);
        assert(upd.last() == e);
        assert(value_map(upd) =~= value_map(entries).insert((e.ctx, e.action@), e.value as int));
    } else {
        assert forall|p: int, q: int|
            0 <= p < q < dl.len() implies !(dl[p].ctx == dl[q].ctx && dl[p].action@
                == dl[q].action@) by {
            assert(dl[p] == entries[p] && dl[q] == entries[q]);
        }
        assert(dl[i] == entries[i]);
        lemma_value_map_update(dl, i, e);
        assert(upd.drop_last() =~= dl.update(i, e));
        assert(upd.last() == entries.last());
        // the two keys differ, so the two inserts commute
        assert(!(entries[i].ctx == entries[last].ctx && entries[i].action@
            == entries[last].action@));
        assert(value_map(upd) =~= value_map(entries).insert((e.ctx, e.action@), e.value as int));
    }
}

/// With unique keys, an all-zero mapping has only zero entries.
pub proof fn lemma_entries_zero(entries: Seq<ValueEntry>)
    requires
        unique_value_keys(entries),
        all_zero(value_map(entries)),
    ensures
        forall|i: int| 0 <= i < entries.len() ==> #[trigger] entries[i].value == 0,
{
    assert forall|i: int| 0 <= i < entries.len() implies #[trigger] entries[i].value == 0 by {
        lemma_value_map_present(entries, i);
    }
}

/// A two-generation store holds one of these per generation.
pub struct ValueTable {
    /// The entries; keys are unique when the table is well formed.
    pub items: Vec<ValueEntry>,
}

impl View for ValueTable {
    type V = Map<(Context, Seq<char>), int>;

    open spec fn view(&self) -> Self::V {
        value_map(self.items@)
    }
}

impl ValueTable {
    /// The entries in the order the event cycle walks them.
    pub open spec fn entries(&self) -> Seq<ValueEntry> {
        self.items@
    }

    /// Keys are unique and every value is in `[0, FULL_VALUE]`.
    pub open spec fn wf(&self) -> bool {
        unique_value_keys(self.items@) && values_in_range(self.items@)
    }

    /// An empty table.
    pub fn new() -> (r: Self)
        ensures
            r.wf(),
            r@ == Map::<(Context, Seq<char>), int>::empty(),
            r.entries() == Seq::<ValueEntry>::empty(),
    {
        ValueTable { items: Vec::new() }
    }

    /// The index of the entry holding the key, if any entry does.
    fn find_index(&self, ctx: Context, action: &String) -> (r: Option<usize>)
        ensures
            match r {
                Some(i) => i < self.items@.len() && self.items@[i as int].ctx == ctx
                    && self.items@[i as int].action@ == action@,
                None => forall|i: int|
                    0 <= i < self.items@.len() ==> !(self.items@[i].ctx == ctx
                        && self.items@[i].action@ == action@),
            },
    {
        let mut i: usize = 0;
        while i < self.items.len()
            invariant
                i <= self.items@.len(),
                forall|j: int|
                    0 <= j < i ==> !(self.items@[j].ctx == ctx && self.items@[j].action@
                        == action@),
            decreases self.items@.len() - i,
        {
            if self.items[i].ctx == ctx && self.items[i].action == *action {
                return Some(i);
            }
            i += 1;
        }
        None
    }

    /// Records `value` for `(ctx, action)`, overwriting any earlier
    /// value of this generation.
    pub fn set(&mut self, ctx: Context, action: String, value: i32)
        requires
            old(self).wf(),
            0 <= value <= FULL_VALUE,
        ensures
            final(self).wf(),
            final(self)@ == old(self)@.insert((ctx, action@), value as int),
    {
        let ghost prior = self.items@;
        let e = ValueEntry { ctx: ctx, action: action, value: value };
        let idx = self.find_index(ctx, &e.action);
        match idx {
            Some(i) => {
                self.items[i] = e;
                proof {
                    lemma_value_map_update(prior, i as int, self.items@[i as int]);
                    assert forall|p: int, q: int|
                        0 <= p < q < self.items@.len() implies !(self.items@[p].ctx
                            == self.items@[q].ctx && self.items@[p].action@
                            == self.items@[q].action@) by {
                        if p != i && q != i {
                            assert(self.items@[p] == prior[p] && self.items@[q] == prior[q]);
                        } else if p == i {
                            assert(self.items@[q] == prior[q]);
                            assert(!(prior[i as int].ctx == prior[q].ctx && prior[i as int].action@
                                == prior[q].action@));
                        } else {
                            assert(self.items@[p] == prior[p]);
                            assert(!(prior[p].ctx == prior[i as int].ctx && prior[p].action@
                                == prior[i as int].action@));
                        }
                    }
                    assert forall|p: int|
                        0 <= p < self.items@.len() implies 0 <= #[trigger] self.items@[p].value
                            <= FULL_VALUE by {
                        if p != i {
                            assert(self.items@[p] == prior[p]);
                        }
                    }
                }
            },
            None => {
                self.items.push(e);
                proof {
                    assert(self.items@.drop_last() =~= prior);
                    assert(self.items@.last() == self.items@[prior.len() as int]);
                    assert forall|p: int, q: int|
                        0 <= p < q < self.items@.len() implies !(self.items@[p].ctx
                            == self.items@[q].ctx && self.items@[p].action@
                            == self.items@[q].action@) by {
                        if q < prior.len() {
                            assert(self.items@[p] == prior[p] && self.items@[q] == prior[q]);
                        } else {
                            assert(self.items@[p] == prior[p]);
                        }
                    }
                    assert forall|p: int|
                        0 <= p < self.items@.len() implies 0 <= #[trigger] self.items@[p].value
                            <= FULL_VALUE by {
                        if p < prior.len() {
                            assert(self.items@[p] == prior[p]);
                        }
                    }
                }
            },
        }
    }

    /// The recorded value for `(ctx, action)`, or 0 when it is unset.
    pub fn get(&self, ctx: Context, action: &String) -> (r: i32)
        requires
            self.wf(),
        ensures
            r == lookup_or_zero(self@, (ctx, action@)),
            0 <= r <= FULL_VALUE,
    {
        let idx = self.find_index(ctx, action);
        match idx {
            Some(i) => {
                proof {
                    lemma_value_map_present(self.items@, i as int);
                }
                self.items[i].value
            },
            None => {
                proof {
                    lemma_value_map_absent(self.items@, (ctx, action@));
                }
                0
            },
        }
    }

    /// Forgets every recorded value.
    pub fn clear(&mut self)
        ensures
            final(self).wf(),
            final(self)@ == Map::<(Context, Seq<char>), int>::empty(),
            final(self).entries() == Seq::<ValueEntry>::empty(),
    {
        self.items.clear();
    }
}

} // verus!
