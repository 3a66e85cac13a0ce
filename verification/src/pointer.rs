use vstd::prelude::*;

use core::cmp::Ordering;
use core::marker::PhantomData;

use crate::access::Access;
use crate::access::Shared;
use crate::access::Unique;
use crate::pointee::PlainRef;
use crate::pointee::Pointee;
use crate::pointee::SliceRef;
use crate::pointee::VTablePointer;
use crate::store::Store;
use crate::trait_obj::CONST_VTABLE;
use crate::trait_obj::COUNTER_VTABLE;
use crate::trait_obj::TraitObject;
use crate::trait_obj::cell_after_invoke;
use crate::trait_obj::invoke_result;
use crate::trait_obj::known_vtable;
use vstd::std_specs::cmp::PartialEqSpec;
use vstd::std_specs::cmp::PartialOrdSpec;

verus! {

/// A pointer to any of the three pointee shapes: plain values, runs of
/// elements, and behavior objects. It pairs a bare address into a
/// [`Store`] with the metadata needed to rebuild a full reference, and
/// carries — at the type level only — the access capability `A` of the
/// borrow it came from.
///
/// Duplication follows the capability: the `Clone`/`Copy` impls below exist
/// exactly when `A` is duplicable, so a `Shared` handle is freely copied
/// while a `Unique` handle cannot be duplicated at all.
#[derive(Debug)]
pub struct Ptr<T, Meta, A: Access> {
    /// The address of the pointee within its store.
    location: usize,

    /// Additional metadata of the pointee.
    meta: Meta,

    /// Shared / unique access.
    access: PhantomData<A>,

    /// The element type pointed at; the handle never owns a value of it.
    elem: PhantomData<T>,
}

impl<T, Meta, A: Access> Ptr<T, Meta, A> {
    /// The stored address. This alone is the handle's identity.
    pub closed spec fn addr(self) -> usize {
        self.location
    }

    /// The stored metadata.
    pub closed spec fn meta_spec(self) -> Meta {
        self.meta
    }
}

/// If `A` is `Copy`, the pointer is `Copy`: this is what lets a `Shared`
/// handle be duplicated freely and forbids duplicating a `Unique` one.
impl<T, Meta: Copy, A: Access + Copy> Copy for Ptr<T, Meta, A> {

}

/// If `A` is `Copy`, the pointer is `Clone` the same way.
impl<T, Meta: Copy, A: Access + Copy> Clone for Ptr<T, Meta, A> {
    fn clone(&self) -> (r: Self)
        ensures
            r == *self,
    {
        *self
    }
}

impl<T, Meta: Copy> Ptr<T, Meta, Unique> {
    /// Narrows unique access to shared: a distinct handle at the same
    /// address, through which only reads are possible. The unique handle
    /// keeps its tag; no handle ever changes access in place.
    pub fn share(&self) -> (r: Ptr<T, Meta, Shared>)
        ensures
            r.addr() == self.addr(),
            r.meta_spec() == self.meta_spec(),
    {
        Ptr { location: self.location, meta: self.meta, access: PhantomData, elem: PhantomData }
    }
}

/// Two handles are the same handle exactly when they store the same
/// address: metadata and the two access tags never enter the comparison,
/// so handles over the same cells compare equal even across tags and
/// across differing metadata values.
impl<T, Meta, A: Access, B: Access> PartialEq<Ptr<T, Meta, B>> for Ptr<T, Meta, A> {
    fn eq(&self, other: &Ptr<T, Meta, B>) -> bool {
        self.location == other.location
    }
}

impl<T, Meta, A: Access, B: Access> vstd::std_specs::cmp::PartialEqSpecImpl<Ptr<T, Meta, B>> for Ptr<T, Meta, A> {
    open spec fn obeys_eq_spec() -> bool {
        true
    }

    open spec fn eq_spec(&self, other: &Ptr<T, Meta, B>) -> bool {
        self.addr() == other.addr()
    }
}

/// Address equality is reflexive, symmetric and transitive, so the handle
/// equality above is a full equivalence.
impl<T, Meta, A: Access> Eq for Ptr<T, Meta, A> {

}

/// Handles are ordered by their stored address alone, consistently with the
/// equality above.
impl<T, Meta, A: Access, B: Access> PartialOrd<Ptr<T, Meta, B>> for Ptr<T, Meta, A> {
    fn partial_cmp(&self, other: &Ptr<T, Meta, B>) -> Option<Ordering> {
        if self.location < other.location {
            Some(Ordering::Less)
        } else if self.location == other.location {
            Some(Ordering::Equal)
        } else {
            Some(Ordering::Greater)
        }
    }
}

impl<T, Meta, A: Access, B: Access> vstd::std_specs::cmp::PartialOrdSpecImpl<Ptr<T, Meta, B>> for Ptr<T, Meta, A> {
    open spec fn obeys_partial_cmp_spec() -> bool {
        true
    }

    open spec fn partial_cmp_spec(&self, other: &Ptr<T, Meta, B>) -> Option<Ordering> {
        if self.addr() < other.addr() {
            Some(Ordering::Less)
        } else if self.addr() == other.addr() {
            Some(Ordering::Equal)
        } else {
            Some(Ordering::Greater)
        }
    }
}

impl<T, A: Access> Ptr<T, (), A> {
    /// Whether the handle describes a valid plain value of a store of `n`
    /// cells: the one addressed cell exists.
    pub open spec fn wf(self, n: nat) -> bool {
        self.addr() < n
    }

    /// Dereference (read): rebuilds the plain reference from the bare
    /// address. Available under every access tag.
    pub fn deref<'a>(&self, s: &'a Store<T>) -> (r: &'a T)
        requires
            self.wf(s@.len()),
        ensures
            *r == s@[self.addr() as int],
    {
        s.read(self.location)
    }
}

impl<T> Ptr<T, (), Shared> {
    /// Constructs a new `Ptr` from a shared borrow of the plain value at
    /// `region`: the resulting handle is read-only.
    pub fn new(region: PlainRef, s: &Store<T>) -> (r: Self)
        requires
            region.addr < s@.len(),
        ensures
            r.addr() == region.addr,
            r.wf(s@.len()),
    {
        let meta = region.metadata();
        Ptr { location: region.addr, meta, access: PhantomData, elem: PhantomData }
    }
}

impl<T> Ptr<T, (), Unique> {
    /// Constructs a new `Ptr` from a unique borrow of the plain value at
    /// `region`: the resulting handle may also write through `deref_mut`.
    /// The store itself is left untouched.
    pub fn new(region: PlainRef, s: &mut Store<T>) -> (r: Self)
        requires
            region.addr < old(s)@.len(),
        ensures
            final(s)@ == old(s)@,
            r.addr() == region.addr,
            r.wf(final(s)@.len()),
    {
        let meta = region.metadata();
        Ptr { location: region.addr, meta, access: PhantomData, elem: PhantomData }
    }

    /// Dereference (write): rebuilds a writable plain reference from the
    /// bare address. Only a `Unique` handle has this operation; on a
    /// `Shared` handle the call does not compile.
    pub fn deref_mut<'a>(&self, s: &'a mut Store<T>) -> (r: &'a mut T)
        requires
            self.wf(old(s)@.len()),
        ensures
            *r == old(s)@[self.addr() as int],
            final(s)@ == old(s)@.update(self.addr() as int, *final(r)),
    {
        s.borrow_mut(self.location)
    }
}

impl<T, A: Access> Ptr<T, usize, A> {
    /// Whether the handle describes a valid run of elements of a store of
    /// `n` cells: the stored count of cells, starting at the stored address,
    /// all exist.
    pub open spec fn wf(self, n: nat) -> bool {
        self.addr() + self.meta_spec() <= n
    }

    /// The element count of the pointed-to run, read from the metadata.
    pub fn len(&self) -> (n: usize)
        ensures
            n == self.meta_spec(),
    {
        self.meta
    }

    /// Dereference (read): rebuilds from the bare address and the stored
    /// count a bounded view over exactly that many elements. Available under
    /// every access tag.
    pub fn deref<'a>(&self, s: &'a Store<T>) -> (r: &'a [T])
        requires
            self.wf(s@.len()),
        ensures
            r@ == s@.subrange(self.addr() as int, self.addr() + self.meta_spec()),
    {
        // The run's end fits in usize because the store's cell count does.
        let _n: usize = s.len();
        s.read_slice(self.location, self.location + self.meta)
    }
}

impl<T> Ptr<T, usize, Shared> {
    /// Constructs a new `Ptr` from a shared borrow of the run of elements at
    /// `region`: the resulting handle is read-only. The element count is
    /// derived from the borrowed view and fixed in the handle's metadata.
    pub fn new(region: SliceRef, s: &Store<T>) -> (r: Self)
        requires
            region.addr + region.len <= s@.len(),
        ensures
            r.addr() == region.addr,
            r.meta_spec() == region.len,
            r.wf(s@.len()),
    {
        let meta = region.metadata();
        Ptr { location: region.addr, meta, access: PhantomData, elem: PhantomData }
    }
}

impl<T> Ptr<T, usize, Unique> {
    /// Constructs a new `Ptr` from a unique borrow of the run of elements at
    /// `region`: the resulting handle may also write through `deref_mut`.
    /// The store itself is left untouched.
    pub fn new(region: SliceRef, s: &mut Store<T>) -> (r: Self)
        requires
            region.addr + region.len <= old(s)@.len(),
        ensures
            final(s)@ == old(s)@,
            r.addr() == region.addr,
            r.meta_spec() == region.len,
            r.wf(final(s)@.len()),
    {
        let meta = region.metadata();
        Ptr { location: region.addr, meta, access: PhantomData, elem: PhantomData }
    }

    /// Dereference (write): rebuilds a writable bounded view over exactly
    /// the stored count of elements. Cells outside the run keep their
    /// values. Only a `Unique` handle has this operation; on a `Shared`
    /// handle the call does not compile.
    pub fn deref_mut<'a>(&self, s: &'a mut Store<T>) -> (r: &'a mut [T])
        requires
            self.wf(old(s)@.len()),
        ensures
            r@ == old(s)@.subrange(self.addr() as int, self.addr() + self.meta_spec()),
            final(s)@ == old(s)@.subrange(0, self.addr() as int) + final(r)@ + old(s)@.subrange(
                self.addr() + self.meta_spec(),
                old(s)@.len() as int,
            ),
    {
        // The run's end fits in usize because the store's cell count does.
        let _n: usize = s.len();
        s.borrow_slice_mut(self.location, self.location + self.meta)
    }
}

impl<A: Access> Ptr<u64, VTablePointer, A> {
    /// Whether the handle describes a valid behavior object of a store of
    /// `n` cells: the captured cell exists and the dispatch-table address in
    /// the metadata is one the closed world knows.
    pub open spec fn wf(self, n: nat) -> bool {
        self.addr() < n && known_vtable(self.meta_spec())
    }

    /// Dereference for a behavior object: rebuilds the reference from the
    /// bare address and the stored dispatch-table address via the raw
    /// dual-word view, and invokes it once, read-only. Available under every
    /// access tag, but only for the constant behavior — the counter must
    /// write its captured cell, which read-only access cannot allow.
    pub fn invoke(&self, s: &Store<u64>) -> (r: u64)
        requires
            self.wf(s@.len()),
            self.meta_spec().0 == CONST_VTABLE,
        ensures
            r == invoke_result(self.meta_spec(), s@[self.addr() as int]),
    {
        let obj = TraitObject::new(self.location, self.meta);
        obj.invoke(s)
    }
}

impl Ptr<u64, VTablePointer, Shared> {
    /// Constructs a new `Ptr` from a shared borrow of the behavior object
    /// described by the dual-word view `obj`: the resulting handle is
    /// read-only. The dispatch-table address is derived from the view's
    /// second word and fixed in the handle's metadata.
    pub fn new(obj: TraitObject, s: &Store<u64>) -> (r: Self)
        requires
            obj.wf(s@.len()),
        ensures
            r.addr() == obj.data_spec(),
            r.meta_spec() == obj.vtable_spec(),
            r.wf(s@.len()),
    {
        let meta = obj.metadata();
        Ptr { location: obj.data(), meta, access: PhantomData, elem: PhantomData }
    }
}

impl Ptr<u64, VTablePointer, Unique> {
    /// Constructs a new `Ptr` from a unique borrow of the behavior object
    /// described by the dual-word view `obj`: the resulting handle may also
    /// drive state-changing behaviors through `invoke_mut`. The store itself
    /// is left untouched.
    pub fn new(obj: TraitObject, s: &mut Store<u64>) -> (r: Self)
        requires
            obj.wf(old(s)@.len()),
        ensures
            final(s)@ == old(s)@,
            r.addr() == obj.data_spec(),
            r.meta_spec() == obj.vtable_spec(),
            r.wf(final(s)@.len()),
    {
        let meta = obj.metadata();
        Ptr { location: obj.data(), meta, access: PhantomData, elem: PhantomData }
    }

    /// Mutable dereference for a behavior object: rebuilds the reference via
    /// the raw dual-word view and invokes it once, allowing it to write its
    /// captured cell. Only a `Unique` handle has this operation; on a
    /// `Shared` handle the call does not compile.
    pub fn invoke_mut(&self, s: &mut Store<u64>) -> (r: u64)
        requires
            self.wf(old(s)@.len()),
            self.meta_spec().0 == COUNTER_VTABLE ==> old(s)@[self.addr() as int] < u64::MAX,
        ensures
            final(s)@ == old(s)@.update(
                self.addr() as int,
                cell_after_invoke(self.meta_spec(), old(s)@[self.addr() as int]),
            ),
            r == invoke_result(self.meta_spec(), old(s)@[self.addr() as int]),
    {
        let obj = TraitObject::new(self.location, self.meta);
        obj.invoke_mut(s)
    }
}

/// A handle's identity is its address alone: two handles over the same
/// underlying cells compare equal — and order as equal — and two handles
/// over distinct cells compare unequal, whatever their access tags and
/// their metadata values say.
pub proof fn lemma_identity_is_address<T, Meta, A: Access, B: Access>(
    p: Ptr<T, Meta, A>,
    q: Ptr<T, Meta, B>,
)
    ensures
        p.eq_spec(&q) <==> p.addr() == q.addr(),
        p.partial_cmp_spec(&q) == Some(Ordering::Equal) <==> p.addr() == q.addr(),
{
}

/// Handle equality is an equivalence — reflexive, symmetric and transitive —
/// across any mix of access tags, which is what entitles `Ptr` to `Eq`.
pub proof fn lemma_eq_equivalence<T, Meta, A: Access, B: Access, C: Access>(
    p: Ptr<T, Meta, A>,
    q: Ptr<T, Meta, B>,
    r: Ptr<T, Meta, C>,
)
    ensures
        p.eq_spec(&p),
        p.eq_spec(&q) ==> q.eq_spec(&p),
        p.eq_spec(&q) && q.eq_spec(&r) ==> p.eq_spec(&r),
{
}

/// What a write through a unique plain handle means for later reads: in the
/// updated store the handle is still well formed and the addressed cell
/// holds exactly the written value, so reading back observes the mutation.
pub proof fn lemma_mutation_observed<T, A: Access>(p: Ptr<T, (), A>, s: Seq<T>, v: T)
    requires
        p.wf(s.len()),
    ensures
        p.wf(s.update(p.addr() as int, v).len()),
        s.update(p.addr() as int, v)[p.addr() as int] == v,
{
}

/// The view a sequence handle dereferences to has exactly the stored count
/// of elements, and each of them is the corresponding cell of the store.
pub proof fn lemma_slice_view_exact<T, A: Access>(p: Ptr<T, usize, A>, s: Seq<T>)
    requires
        p.wf(s.len()),
    ensures
        s.subrange(p.addr() as int, p.addr() + p.meta_spec()).len() == p.meta_spec(),
        forall|i: int|
            0 <= i < p.meta_spec() ==> #[trigger] s.subrange(
                p.addr() as int,
                p.addr() + p.meta_spec(),
            )[i] == s[p.addr() + i],
{
}

} // verus!
