use vstd::prelude::*;

use crate::pointee::VTablePointer;
use crate::store::Store;

verus! {

/// Dispatch-table address of the constant behavior: invoked, it hands back
/// the captured cell and leaves it unchanged — the analogue of an immutable
/// zero-argument callable.
pub const CONST_VTABLE: usize = 1;

/// Dispatch-table address of the counter behavior: invoked, it increments
/// the captured cell and hands back the new count — the analogue of a
/// zero-argument callable with mutable captured state.
pub const COUNTER_VTABLE: usize = 2;

/// Whether `v` addresses one of the dispatch tables of this closed world.
pub open spec fn known_vtable(v: VTablePointer) -> bool {
    v.0 == CONST_VTABLE || v.0 == COUNTER_VTABLE
}

/// The captured cell after one invocation of the behavior that `table`
/// dispatches to: only the counter writes it.
pub open spec fn cell_after_invoke(table: VTablePointer, cell: u64) -> u64 {
    if table.0 == COUNTER_VTABLE {
        (cell + 1) as u64
    } else {
        cell
    }
}

/// What one invocation returns: each behavior of the closed world hands back
/// exactly the value it leaves in its captured cell.
pub open spec fn invoke_result(table: VTablePointer, cell: u64) -> u64 {
    cell_after_invoke(table, cell)
}

/// The raw dual-word view of a behavior-object reference: the address of the
/// captured state paired with the address of the dispatch table that gives
/// that state its behavior. Rebuilding an invocable reference out of the two
/// words is `invoke` / `invoke_mut` below.
#[derive(Copy, Clone, Debug)]
pub struct TraitObject {
    data: usize,
    vtable: VTablePointer,
}

impl TraitObject {
    /// The data word, at the specification level.
    pub closed spec fn data_spec(self) -> usize {
        self.data
    }

    /// The vtable word, at the specification level.
    pub closed spec fn vtable_spec(self) -> VTablePointer {
        self.vtable
    }

    /// Whether the two words describe a valid behavior object of a store of
    /// `n` cells: the captured cell exists and the dispatch table is known.
    pub open spec fn wf(self, n: nat) -> bool {
        self.data_spec() < n && known_vtable(self.vtable_spec())
    }

    /// Creates a new `TraitObject` from `data` and `vtable`. No validation
    /// happens here: whether the words describe a valid behavior object is
    /// judged against a store, by `wf`, at the point of use.
    pub fn new(data: usize, vtable: VTablePointer) -> (r: Self)
        ensures
            r.data_spec() == data,
            r.vtable_spec() == vtable,
    {
        TraitObject { data, vtable }
    }

    /// Returns the data part of the trait object.
    pub fn data(&self) -> (r: usize)
        ensures
            r == self.data_spec(),
    {
        self.data
    }

    /// Returns the vtable part of the trait object.
    pub fn vtable(&self) -> (r: VTablePointer)
        ensures
            r == self.vtable_spec(),
    {
        self.vtable
    }

    /// Rebuilds a read-only behavior reference from the two words and invokes
    /// it once. Only the constant behavior can be driven through read-only
    /// access: the counter must write its captured cell.
    pub fn invoke(&self, s: &Store<u64>) -> (r: u64)
        requires
            self.wf(s@.len()),
            self.vtable_spec().0 == CONST_VTABLE,
        ensures
            r == invoke_result(self.vtable_spec(), s@[self.data_spec() as int]),
    {
        *s.read(self.data)
    }

    /// Rebuilds a writable behavior reference from the two words and invokes
    /// it once, dispatching on the vtable word.
    pub fn invoke_mut(&self, s: &mut Store<u64>) -> (r: u64)
        requires
            self.wf(old(s)@.len()),
            self.vtable_spec().0 == COUNTER_VTABLE ==> old(s)@[self.data_spec() as int] < u64::MAX,
        ensures
            final(s)@ == old(s)@.update(
                self.data_spec() as int,
                cell_after_invoke(self.vtable_spec(), old(s)@[self.data_spec() as int]),
            ),
            r == invoke_result(self.vtable_spec(), old(s)@[self.data_spec() as int]),
    {
        if self.vtable.0 == COUNTER_VTABLE {
            let cell = s.borrow_mut(self.data);
            *cell = *cell + 1;
            *cell
        } else {
            let r = *s.read(self.data);
            proof {
                assert(old(s)@ =~= old(s)@.update(
                    self.data_spec() as int,
                    cell_after_invoke(self.vtable_spec(), old(s)@[self.data_spec() as int]),
                ));
            }
            r
        }
    }
}

/// Driving the constant behavior leaves the captured cell as it was and
/// hands back that same value, so repeated invocations through duplicated
/// read-only handles all return the same result.
pub proof fn lemma_const_stable(v: VTablePointer, cell: u64)
    requires
        v.0 == CONST_VTABLE,
    ensures
        cell_after_invoke(v, cell) == cell,
        invoke_result(v, cell) == cell,
{
}

/// Driving the counter behavior twice advances the captured cell by two and
/// hands back the two successive counts.
pub proof fn lemma_counter_twice(v: VTablePointer, cell: u64)
    requires
        v.0 == COUNTER_VTABLE,
        cell + 2 <= u64::MAX,
    ensures
        invoke_result(v, cell) == cell + 1,
        cell_after_invoke(v, cell) == cell + 1,
        invoke_result(v, cell_after_invoke(v, cell)) == cell + 2,
        cell_after_invoke(v, cell_after_invoke(v, cell)) == cell + 2,
{
}

} // verus!
