use core::cmp::Ordering;
use fat_ptr::access::Shared;
use fat_ptr::access::Unique;
use fat_ptr::pointee::PlainRef;
use fat_ptr::pointee::Pointee;
use fat_ptr::pointee::SliceRef;
use fat_ptr::pointee::VTablePointer;
use fat_ptr::pointer::Ptr;
use fat_ptr::store::Store;
use fat_ptr::trait_obj::CONST_VTABLE;
use fat_ptr::trait_obj::COUNTER_VTABLE;
use fat_ptr::trait_obj::TraitObject;

#[test]
fn normal_pointer_deref() {
    let store = Store::new(vec![0]);

    let pointer = Ptr::<i32, (), Shared>::new(PlainRef { addr: 0 }, &store);

    assert_eq!(*pointer.deref(&store), 0);
}

#[test]
fn normal_pointer_deref_mut() {
    let mut store = Store::new(vec![0]);
    let pointer = Ptr::<i32, (), Unique>::new(PlainRef { addr: 0 }, &mut store);

    *pointer.deref_mut(&mut store) = 42;

    assert_eq!(*pointer.deref(&store), 42);
}

#[test]
fn slice_deref() {
    let store = Store::new(vec![1, 2, 3, 4, 5]);

    let pointer = Ptr::<i32, usize, Shared>::new(SliceRef { addr: 0, len: 5 }, &store);

    assert_eq!(pointer.deref(&store), &[1, 2, 3, 4, 5]);
}

#[test]
fn slice_deref_mut() {
    let mut store = Store::new(vec![1, 2, 3, 4, 5]);

    let pointer = Ptr::<i32, usize, Unique>::new(SliceRef { addr: 0, len: 5 }, &mut store);

    for elem in pointer.deref_mut(&mut store).iter_mut() {
        *elem += 1;
    }

    assert_eq!(pointer.deref(&store), &[2, 3, 4, 5, 6]);
}

#[test]
fn test_fn_trait() {
    let store = Store::new(vec![0]);

    let fn_trait_obj = TraitObject::new(0, VTablePointer(CONST_VTABLE));

    let pointer = Ptr::<u64, VTablePointer, Shared>::new(fn_trait_obj, &store);

    // Prove we can copy it.
    let copy = pointer;

    assert_eq!(pointer.invoke(&store), 0);
    assert_eq!(copy.invoke(&store), 0);
}

#[test]
fn test_fn_mut_trait() {
    let mut store = Store::new(vec![0]);

    let fn_mut_trait_obj = TraitObject::new(0, VTablePointer(COUNTER_VTABLE));

    let pointer = Ptr::<u64, VTablePointer, Unique>::new(fn_mut_trait_obj, &mut store);

    // let copy = pointer; <-- can't copy!

    assert_eq!(pointer.invoke_mut(&mut store), 1);
    assert_eq!(pointer.invoke_mut(&mut store), 2);
    assert_eq!(*store.read(0), 2);
}

#[test]
fn identity_is_address_alone() {
    let mut store = Store::new(vec![10, 20, 30]);

    // Same start address, different length metadata: still the same handle.
    let a = Ptr::<i32, usize, Shared>::new(SliceRef { addr: 0, len: 2 }, &store);
    let b = Ptr::<i32, usize, Shared>::new(SliceRef { addr: 0, len: 3 }, &store);
    assert!(a == b);

    // Same address across different access tags: equal as well.
    let p = Ptr::<i32, (), Shared>::new(PlainRef { addr: 1 }, &store);
    let q = Ptr::<i32, (), Unique>::new(PlainRef { addr: 1 }, &mut store);
    assert!(p == q);

    // Distinct addresses: unequal, whatever the tags are.
    let r = Ptr::<i32, (), Unique>::new(PlainRef { addr: 2 }, &mut store);
    assert!(p != r);
    assert!(q != r);
}

#[test]
fn ordering_is_by_address() {
    let store = Store::new(vec![10, 20, 30]);

    let p = Ptr::<i32, (), Shared>::new(PlainRef { addr: 0 }, &store);
    let q = Ptr::<i32, (), Shared>::new(PlainRef { addr: 2 }, &store);

    assert!(p < q);
    assert!(q > p);
    assert_eq!(p.partial_cmp(&p), Some(Ordering::Equal));
    assert_eq!(p.partial_cmp(&q), Some(Ordering::Less));
}

#[test]
fn shared_handle_duplicates() {
    let store = Store::new(vec![7, 8]);

    let pointer = Ptr::<i32, (), Shared>::new(PlainRef { addr: 1 }, &store);
    let copy = pointer;
    let cloned = pointer.clone();

    assert_eq!(*pointer.deref(&store), 8);
    assert_eq!(*copy.deref(&store), 8);
    assert_eq!(*cloned.deref(&store), 8);
}

#[test]
fn unique_narrows_to_shared() {
    let mut store = Store::new(vec![5]);

    let unique = Ptr::<i32, (), Unique>::new(PlainRef { addr: 0 }, &mut store);
    *unique.deref_mut(&mut store) = 6;

    let shared = unique.share();
    assert!(shared == unique);
    assert_eq!(*shared.deref(&store), 6);
    assert_eq!(*unique.deref(&store), 6);
}

#[test]
fn slice_handle_len_matches() {
    let store = Store::new(vec![9, 9, 9, 9]);

    let whole = Ptr::<i32, usize, Shared>::new(SliceRef { addr: 0, len: 4 }, &store);
    let tail = Ptr::<i32, usize, Shared>::new(SliceRef { addr: 2, len: 2 }, &store);

    assert_eq!(whole.len(), 4);
    assert_eq!(tail.len(), 2);
    assert_eq!(tail.deref(&store), &[9, 9]);
}

#[test]
fn empty_slice_handle() {
    let store: Store<i32> = Store::new(vec![]);

    let pointer = Ptr::<i32, usize, Shared>::new(SliceRef { addr: 0, len: 0 }, &store);

    assert_eq!(pointer.len(), 0);
    assert_eq!(pointer.deref(&store), &[] as &[i32]);
}

#[test]
fn metadata_derivation() {
    assert_eq!(SliceRef { addr: 3, len: 7 }.metadata(), 7);
    assert_eq!(PlainRef { addr: 3 }.metadata(), ());

    let obj = TraitObject::new(4, VTablePointer(CONST_VTABLE));
    assert_eq!(obj.metadata(), VTablePointer(CONST_VTABLE));
    assert_eq!(obj.data(), 4);
    assert_eq!(obj.vtable(), VTablePointer(CONST_VTABLE));
}

#[test]
fn const_behavior_through_unique() {
    let mut store = Store::new(vec![11]);

    let obj = TraitObject::new(0, VTablePointer(CONST_VTABLE));
    let pointer = Ptr::<u64, VTablePointer, Unique>::new(obj, &mut store);

    // Read-only dereference works under unique access too, and the
    // constant behavior leaves its captured cell alone even when driven
    // through the writable path.
    assert_eq!(pointer.invoke(&store), 11);
    assert_eq!(pointer.invoke_mut(&mut store), 11);
    assert_eq!(*store.read(0), 11);
}

#[test]
fn slice_mutation_keeps_neighbours() {
    let mut store = Store::new(vec![1, 2, 3, 4, 5]);

    let middle = Ptr::<i32, usize, Unique>::new(SliceRef { addr: 1, len: 3 }, &mut store);
    for elem in middle.deref_mut(&mut store).iter_mut() {
        *elem = 0;
    }

    let whole = Ptr::<i32, usize, Shared>::new(SliceRef { addr: 0, len: 5 }, &store);
    assert_eq!(whole.deref(&store), &[1, 0, 0, 0, 5]);
}
