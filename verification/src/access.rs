use vstd::prelude::*;

verus! {

/// A marker trait naming the two compile-time access capabilities a handle
/// can carry. It has no operations: the capability acts purely through which
/// impls exist for each tag.
pub trait Access {}

/// Shared (read-only) access to the pointed-to cells. Freely duplicable:
/// a second reader can never conflict with the first. The tag is used only
/// at the type level; no value of it is ever constructed.
#[derive(Copy, Clone)]
pub enum Shared {
    Tag,
}

/// Unique (read-write) access to the pointed-to cells. Deliberately neither
/// `Copy` nor `Clone`: a handle with this tag must never be duplicated, since
/// uniqueness is what makes mutation through it sound. The tag is used only
/// at the type level; no value of it is ever constructed.
pub enum Unique {
    Tag,
}

impl Access for Shared {}

impl Access for Unique {}

} // verus!
