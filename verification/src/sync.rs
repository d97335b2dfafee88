//! The parts of the standard library the primitives stand on: atomics, the
//! shared allocation and the mutex that serves as a store for values.
//!
//! Nothing here is proved. Each item says what is taken on trust about the
//! standard function it names.

use crate::count::{may_join, raise};
use std::sync::atomic::{AtomicBool, AtomicUsize, Ordering};
use std::sync::Mutex;
use vstd::prelude::*;

verus! {

/// `std::sync::Mutex`, as an opaque type.
#[verifier::external_type_specification]
#[verifier::external_body]
#[verifier::reject_recursive_types(T)]
pub struct ExMutex<T: ?Sized>(Mutex<T>);

/// `std::sync::Mutex::new`. Nothing is claimed of the mutex it returns.
pub assume_specification<T>[ Mutex::<T>::new ](t: T) -> Mutex<T>;

/// `std::hint::spin_loop`: a hint to the processor, with no effect to state.
pub assume_specification[ std::hint::spin_loop ]();

/// `AtomicUsize::fetch_sub(1, Release)`: takes one from `count` and returns
/// the value it replaced. The value depends on what other threads did, so
/// nothing is claimed of it; the operation itself never unwinds.
#[verifier::external_body]
pub(crate) fn release_one(count: &AtomicUsize) -> (prev: usize)
    opens_invariants none
    no_unwind
{
    count.fetch_sub(1, Ordering::Release)
}

/// `std::sync::atomic::fence(Acquire)`. `fence` panics only for `Relaxed`,
/// which is never passed, so the call never unwinds.
#[verifier::external_body]
pub(crate) fn fence_acquire()
    opens_invariants none
    no_unwind
{
    std::sync::atomic::fence(Ordering::Acquire)
}

/// `AtomicBool::store(false, Release)`. `store` panics only for `Acquire` and
/// `AcqRel`, which are never passed, so the call never unwinds.
#[verifier::external_body]
pub(crate) fn clear(flag: &AtomicBool)
    opens_invariants none
    no_unwind
{
    flag.store(false, Ordering::Release)
}

/// `AtomicUsize::fetch_update(Relaxed, Relaxed, raise)`: replaces the count by
/// what [`raise`] makes of it, retrying while other threads change the count
/// in between. As documented for `fetch_update`, the result is `Ok` of the
/// count that was replaced when `raise` returned a new count for it, and
/// `Err` of the count that was met when `raise` returned nothing for it.
#[verifier::external_body]
pub(crate) fn raise_if_live(count: &AtomicUsize) -> (report: Result<usize, usize>)
    ensures
        match report {
            Ok(prev) => may_join(prev),
            Err(seen) => !may_join(seen),
        },
{
    count.fetch_update(Ordering::Relaxed, Ordering::Relaxed, |c| raise(c))
}

/// `<std::sync::Arc<T> as Clone>::clone`: a second pointer to the same
/// allocation, hence to the same value. The standard library aborts the
/// process rather than let the number of pointers pass `isize::MAX`.
#[verifier::external_body]
pub(crate) fn share<T>(this: &std::sync::Arc<T>) -> (r: std::sync::Arc<T>)
    ensures
        *r == **this,
{
    std::sync::Arc::clone(this)
}

/// `std::sync::Arc::get_mut`: the value behind the pointer, for writing, when
/// the standard library finds no other pointer to the allocation. Whether it
/// finds one is not claimed; what is claimed is that the reference, when
/// there is one, is to the pointer's own value, and that the value is
/// untouched when there is none.
#[verifier::external_body]
pub(crate) fn payload_mut<T>(this: &mut std::sync::Arc<T>) -> (r: Option<&mut T>)
    ensures
        match r {
            Some(m) => *m == **old(this) && **final(this) == *final(m),
            None => **final(this) == **old(this),
        },
{
    std::sync::Arc::get_mut(this)
}

/// `Mutex::lock` followed by `std::mem::replace` on the locked value: stores
/// `v` and returns what was stored before. The guard never leaves this
/// function, so the calling thread cannot already hold the lock, which is the
/// one case in which `lock` may panic; a poisoned lock is entered all the
/// same. Nothing is claimed of the value that comes back.
#[verifier::external_body]
pub(crate) fn exchange<V>(store: &Mutex<Option<V>>, v: Option<V>) -> (prev: Option<V>)
    opens_invariants none
    no_unwind
{
    std::mem::replace(&mut *store.lock().unwrap_or_else(std::sync::PoisonError::into_inner), v)
}

/// `Mutex::lock` followed by `Option::clone` on the locked value: a second
/// pointer to the allocation the store holds, if it holds one. The guard
/// never leaves this function (see [`exchange`]). Nothing is claimed of the
/// result.
#[verifier::external_body]
pub(crate) fn held<T>(store: &Mutex<Option<std::sync::Arc<T>>>) -> (r: Option<std::sync::Arc<T>>) {
    store.lock().unwrap_or_else(std::sync::PoisonError::into_inner).clone()
}

/// `Mutex::into_inner`: the value of a mutex that nobody else can reach any
/// more, poisoned or not. Nothing is claimed of it.
#[verifier::external_body]
pub(crate) fn into_value<T>(cell: Mutex<T>) -> (r: T) {
    cell.into_inner().unwrap_or_else(std::sync::PoisonError::into_inner)
}

} // verus!
