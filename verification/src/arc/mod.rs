//! A shared-ownership pointer, [`Arc`], and its non-owning companion, [`Weak`].
//!
//! All handles to one object share a block with two counts. `arc_count` is the
//! number of `Arc` handles; the payload is destroyed when it falls to zero.
//! `total_count` is the number of handles of either kind, an `Arc` counting as
//! the `Weak` it contains; the block is released when it falls to zero. Two
//! counts are needed so that a `Weak` can race with the drop of the last
//! `Arc`: it joins through a conditional increment of `arc_count` that never
//! moves the count away from zero.
//!
//! The state machine in [`ledger`] states the protocol and proves what holds
//! in every interleaving of the handles' steps.

pub mod ledger;

use crate::count::{check, join, last, sole, Overflow};
use crate::sync::{exchange, fence_acquire, held, payload_mut, raise_if_live, release_one, share};
use std::sync::atomic::{AtomicUsize, Ordering};
use std::sync::Mutex;
use vstd::prelude::*;

verus! {

/// What all handles to one object share. The payload itself lives in an
/// allocation of its own, which every `Arc` points to; `data` keeps one more
/// pointer to it for `Weak` handles to join through. `data` is filled
/// whenever a `Weak` is made from an `Arc`. It is emptied by whoever takes
/// `arc_count` to zero, so that the payload goes with the last `Arc`, and by
/// `get_mut`, which hands out the payload only if no pointer to it is left
/// but the handle's own.
#[verifier::reject_recursive_types(T)]
struct Inner<T> {
    arc_count: AtomicUsize,
    total_count: AtomicUsize,
    data: Mutex<Option<std::sync::Arc<T>>>,
}

/// A handle that owns the payload together with every other `Arc` to it.
/// Two `Arc` are equal when they are handles to the same payload and block.
/// The fields go in this order when the handle is dropped: the payload
/// before the unit of `total_count`.
#[verifier::reject_recursive_types(T)]
pub struct Arc<T> {
    data: std::sync::Arc<T>,
    weak: Weak<T>,
}

/// A handle that keeps the block, but not the payload, alive. Two `Weak` are
/// equal when they are handles to the same block.
#[verifier::reject_recursive_types(T)]
pub struct Weak<T> {
    inner: std::sync::Arc<Inner<T>>,
}

impl<T> View for Arc<T> {
    type V = T;

    /// The payload.
    closed spec fn view(&self) -> T {
        *self.data
    }
}

impl<T> Weak<T> {
    /// The handle that a `Weak` which has joined the owners gets, given what
    /// the block held for it to join through: an owner of the payload that
    /// pointer points to, and without a pointer none.
    fn joined_through(weak: Weak<T>, data: Option<std::sync::Arc<T>>) -> (r: Option<Arc<T>>)
        ensures
            match data {
                Some(p) => r matches Some(arc) && arc@ == *p && arc.as_weak() == weak,
                None => r is None,
            },
    {
        match data {
            Some(data) => Some(Arc { weak, data }),
            None => None,
        }
    }

    /// Tries to become an owner of the payload. `Ok(None)` says that the last
    /// `Arc` is gone, and stays the answer from then on.
    ///
    /// The new handle's unit of `total_count` is taken first, so that
    /// `total_count` never falls below `arc_count`. The unit of `arc_count`
    /// is taken by a conditional increment: an unconditional one would lift a
    /// dead count to one for a moment, and a second `upgrade` could mistake
    /// that for life.
    pub fn upgrade(&self) -> (r: Result<Option<Arc<T>>, Overflow>)
        ensures
            r matches Ok(Some(arc)) ==> arc.as_weak() == *self,
    {
        let weak = match self.clone() {
            Ok(weak) => weak,
            Err(e) => { return Err(e); },
        };
        match join(raise_if_live(&self.inner.arc_count)) {
            Err(e) => Err(e),
            Ok(false) => Ok(None),
            Ok(true) => {
                let made = Weak::joined_through(weak, held(&self.inner.data));
                if made.is_none() {
                    // No pointer to join through: hand the unit back.
                    if last(release_one(&self.inner.arc_count)) {
                        fence_acquire();
                    }
                }
                Ok(made)
            },
        }
    }

    /// A second `Weak` to the same block. In case of `Overflow` the count is
    /// left as the increment made it.
    pub fn clone(&self) -> (r: Result<Weak<T>, Overflow>)
        ensures
            r matches Ok(weak) ==> weak == *self,
    {
        let prev: usize = self.inner.total_count.fetch_add(1, Ordering::Relaxed);
        match check(prev) {
            Ok(()) => Ok(Weak { inner: share(&self.inner) }),
            Err(e) => Err(e),
        }
    }
}

impl<T> Drop for Weak<T> {
    /// Gives up one unit of `total_count`. The decrement is a release, so that
    /// whoever frees the block has seen every other handle's last use of it.
    fn drop(&mut self)
        opens_invariants none
        no_unwind
    {
        if last(release_one(&self.inner.total_count)) {
            fence_acquire();
        }
    }
}

impl<T> Arc<T> {
    /// The `Weak` that `self` contains.
    pub closed spec fn as_weak(&self) -> Weak<T> {
        self.weak
    }

    /// A new object with one owner.
    pub fn new(data: T) -> (arc: Self)
        ensures
            arc@ == data,
    {
        Arc {
            weak: Weak {
                inner: std::sync::Arc::new(
                    Inner {
                        arc_count: AtomicUsize::new(1),
                        total_count: AtomicUsize::new(1),
                        data: Mutex::new(None),
                    },
                ),
            },
            data: std::sync::Arc::new(data),
        }
    }

    /// Another owner of the same payload. Nothing has to be observed first:
    /// that `self` exists shows that the count is not zero. In case of
    /// `Overflow` the count is left as the increment made it.
    pub fn clone(&self) -> (r: Result<Arc<T>, Overflow>)
        ensures
            r matches Ok(arc) ==> arc == *self,
    {
        let weak = match self.weak.clone() {
            Ok(weak) => weak,
            Err(e) => { return Err(e); },
        };
        let prev: usize = self.weak.inner.arc_count.fetch_add(1, Ordering::Relaxed);
        match check(prev) {
            Ok(()) => Ok(Arc { weak, data: share(&self.data) }),
            Err(e) => Err(e),
        }
    }

    /// The payload, for writing, if `arc` is the only handle of either kind.
    /// One `Arc` beside a `Weak` is not enough: the `Weak` could be upgraded
    /// while the payload is borrowed.
    pub fn get_mut(arc: &mut Self) -> (r: Option<&mut T>)
        ensures
            match r {
                Some(payload) => *payload == old(arc)@ && final(arc)@ == *final(payload),
                None => final(arc)@ == old(arc)@,
            },
            final(arc).as_weak() == old(arc).as_weak(),
    {
        if sole(arc.weak.inner.total_count.load(Ordering::Relaxed)) {
            fence_acquire();
            let _ = exchange(&arc.weak.inner.data, None);
            payload_mut(&mut arc.data)
        } else {
            None
        }
    }

    /// A `Weak` to the same block. The block is given a pointer to the
    /// payload first, for the `Weak` to join through.
    pub fn downgrade(arc: &Self) -> (r: Result<Weak<T>, Overflow>)
        ensures
            r matches Ok(weak) ==> weak == arc.as_weak(),
    {
        let _ = exchange(&arc.weak.inner.data, Some(share(&arc.data)));
        arc.weak.clone()
    }
}

impl<T> std::ops::Deref for Arc<T> {
    type Target = T;

    /// The payload. That the handle exists is the proof that it does.
    fn deref(&self) -> (r: &T)
        ensures
            *r == self@,
    {
        &*self.data
    }
}

impl<T> Drop for Arc<T> {
    /// Gives up one unit of `arc_count`; the unit of `total_count` goes with
    /// the `Weak` inside. The owner that takes the count to zero lets go of
    /// the block's pointer to the payload, after a fence that shows it every
    /// other owner's last use.
    fn drop(&mut self)
        opens_invariants none
        no_unwind
    {
        if last(release_one(&self.weak.inner.arc_count)) {
            fence_acquire();
            let _ = exchange(&self.weak.inner.data, None);
        }
    }
}

} // verus!
