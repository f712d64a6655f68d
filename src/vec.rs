//! A `Vec` is mirrored by a `MutableVec`, an observable list.
use crate::{AsMutableStruct, MutableStruct};
use futures_signals::signal_vec::MutableVec;
use vstd::prelude::*;

verus! {

#[verifier::external_type_specification]
#[verifier::external_body]
#[verifier::reject_recursive_types(A)]
pub struct ExMutableVec<A>(MutableVec<A>);

/// Relies on `MutableVec::new_with_values`, which makes a list that holds
/// `values`. The list is shared behind a lock, so nothing about its
/// contents can be stated of the returned handle.
pub assume_specification<A>[ MutableVec::<A>::new_with_values ](values: Vec<A>) -> MutableVec<A>;

/// Relies on `MutableVec::lock_ref`, read through to a slice and copied.
/// It panics only where the lock was poisoned by a panic of another thread.
#[verifier::external_body]
fn values_of<T: Clone>(list: &MutableVec<T>) -> Vec<T> {
    list.lock_ref().to_vec()
}

/// Relies on `MutableVec::lock_mut` and `MutableVecLockMut::replace_cloned`,
/// which put `values` in place of the list's contents and notify observers.
#[verifier::external_body]
fn replace_values<T: Clone>(list: &MutableVec<T>, values: Vec<T>) {
    list.lock_mut().replace_cloned(values);
}

impl<T: Clone> AsMutableStruct for Vec<T> {
    type MutableStructType = MutableVec<T>;

    fn as_mutable_struct(&self) -> MutableVec<T> {
        MutableVec::new_with_values(self.clone())
    }
}

impl<T: Clone> MutableStruct for MutableVec<T> {
    type SnapshotType = Vec<T>;

    fn snapshot(&self) -> Vec<T> {
        values_of(self)
    }

    fn update(&self, new_snapshot: Vec<T>) {
        replace_values(self, new_snapshot)
    }
}

} // verus!
