use vstd::prelude::*;

use crate::trait_obj::TraitObject;

verus! {

/// The address of a dispatch table: the second word of a behavior-object
/// reference. It is carried as a handle's metadata so that the full reference
/// can be rebuilt from a bare address later.
#[derive(Copy, Clone, PartialEq, Eq, Structural, Debug)]
pub struct VTablePointer(pub usize);

/// This trait provides metadata from a pointed-to shape: the auxiliary data,
/// beyond a bare address, that a handle must carry to rebuild a full
/// reference to the pointee.
pub trait Pointee {
    /// The metadata.
    type Meta;

    /// What `metadata` returns, at the specification level.
    spec fn meta_spec(&self) -> Self::Meta;

    /// Acquires the metadata. Total and pure: it only reads the borrowed
    /// view's own bookkeeping.
    fn metadata(&self) -> (m: Self::Meta)
        ensures
            m == self.meta_spec(),
    ;
}

/// A borrowed view of one plain value: the single cell at `addr`. Its layout
/// is fixed by the static type, so no metadata is needed to rebuild a
/// reference to it.
#[derive(Copy, Clone, PartialEq, Eq, Structural, Debug)]
pub struct PlainRef {
    /// The address of the cell holding the value.
    pub addr: usize,
}

impl Pointee for PlainRef {
    type Meta = ();

    open spec fn meta_spec(&self) -> () {
        ()
    }

    fn metadata(&self) -> (m: ()) {
    }
}

/// A borrowed view of a run of cells: `len` elements starting at `addr`.
/// The element count is the metadata, read directly from the view's own
/// bookkeeping — no validation happens here.
#[derive(Copy, Clone, PartialEq, Eq, Structural, Debug)]
pub struct SliceRef {
    /// The address of the first element.
    pub addr: usize,
    /// The number of elements.
    pub len: usize,
}

impl Pointee for SliceRef {
    type Meta = usize;

    open spec fn meta_spec(&self) -> usize {
        self.len
    }

    fn metadata(&self) -> (m: usize) {
        self.len
    }
}

impl Pointee for TraitObject {
    type Meta = VTablePointer;

    open spec fn meta_spec(&self) -> VTablePointer {
        self.vtable_spec()
    }

    /// A behavior-object reference is already the two-word view, so its
    /// metadata is read out of its second word.
    fn metadata(&self) -> (m: VTablePointer) {
        self.vtable()
    }
}

} // verus!
