//! Sign decomposition of whole axes onto half-axis bindings.
//!
//! A whole signed axis feeds two independently bindable half-axes: the
//! direction the axis moved receives the magnitude, and the opposite
//! direction's bound action is cleared to 0 in the same frame.

use vstd::prelude::*;

use crate::input::binding::{BindingTable, Context, PhysicalInput};
use crate::input::values::{ValueTable, FULL_VALUE};

verus! {

/// The action values after feeding one decomposed axis: the action
/// bound to `first` (if any) receives `mag`, then the action bound to
/// `second` (if any) receives 0.
pub open spec fn half_axis_write(
    bindings: Map<(Context, PhysicalInput), Seq<char>>,
    state: Context,
    first: PhysicalInput,
    second: PhysicalInput,
    mag: int,
    vals: Map<(Context, Seq<char>), int>,
) -> Map<(Context, Seq<char>), int> {
    let v1 = if bindings.contains_key((state, first)) {
        vals.insert((state, bindings[(state, first)]), mag)
    } else {
        vals
    };
    if bindings.contains_key((state, second)) {
        v1.insert((state, bindings[(state, second)]), 0)
    } else {
        v1
    }
}

/// Feeding an axis with magnitude 0 keeps an all-zero table all-zero.
pub proof fn lemma_half_axis_write_zero(
    bindings: Map<(Context, PhysicalInput), Seq<char>>,
    state: Context,
    first: PhysicalInput,
    second: PhysicalInput,
    vals: Map<(Context, Seq<char>), int>,
)
    requires
        crate::input::values::all_zero(vals),
    ensures
        crate::input::values::all_zero(half_axis_write(bindings, state, first, second, 0, vals)),
{
    let r = half_axis_write(bindings, state, first, second, 0, vals);
    assert forall|k: (Context, Seq<char>)| #[trigger] r.contains_key(k) implies r[k] == 0 by {
        let k1 = (state, bindings[(state, first)]);
        let k2 = (state, bindings[(state, second)]);
        if bindings.contains_key((state, second)) && k == k2 {
        } else if bindings.contains_key((state, first)) && k == k1 {
        } else {
            assert(vals.contains_key(k));
        }
    }
}

/// Writes one decomposed axis value through `table` into `vals`.
pub(crate) fn write_pair(
    table: &BindingTable,
    vals: &mut ValueTable,
    state: Context,
    first: PhysicalInput,
    second: PhysicalInput,
    mag: i32,
)
    requires
        table.wf(),
        old(vals).wf(),
        0 <= mag <= FULL_VALUE,
    ensures
        final(vals).wf(),
        final(vals)@ == half_axis_write(table@, state, first, second, mag as int, old(vals)@),
{
    match table.get(state, first) {
        Some(a) => {
            let a2 = a.clone();
            vals.set(state, a2, mag);
        },
        None => {},
    }
    match table.get(state, second) {
        Some(a) => {
            let a2 = a.clone();
            vals.set(state, a2, 0);
        },
        None => {},
    }
}

} // verus!
