//! Mutual exclusion by busy-waiting.
//!
//! A [`SpinLock`] is a value and a flag. The thread that swaps the flag from
//! `false` to `true` holds the lock until its [`SpinLockGuard`] is dropped,
//! which stores `false`. The value goes with the right to it: it moves into
//! the guard when the lock is taken and back into the lock when the guard is
//! dropped. There is no queue and no fairness: any thread may overtake one
//! that is waiting.
//!
//! The state machine in [`gate`] proves that the flag admits one holder at a
//! time, that each guard has the value the last one left, and that no write
//! made through a guard is lost.

pub mod gate;

use crate::sync::{clear, exchange, into_value};
use gate::won;
use std::sync::atomic::{AtomicBool, Ordering};
use std::sync::Mutex;
use vstd::prelude::*;

verus! {

/// A value that one thread at a time may reach.
#[verifier::reject_recursive_types(T)]
pub struct SpinLock<T> {
    /// The value, while no guard has it.
    data: Mutex<Option<T>>,
    locked: AtomicBool,
}

/// The value of a lock while it is out of the lock, with the duty to bring it
/// back.
#[verifier::reject_recursive_types(T)]
struct Held<'a, T> {
    lock: &'a SpinLock<T>,
    value: Option<T>,
}

/// The right to reach the value of a [`SpinLock`]. Its view is the value.
/// Dropping it unlocks.
#[verifier::reject_recursive_types(T)]
pub struct SpinLockGuard<'a, T> {
    held: Held<'a, T>,
}

/// The value an option holds, for writing.
fn some_mut<T>(option: &mut Option<T>) -> (r: &mut T)
    requires
        *old(option) is Some,
    ensures
        *r == old(option)->0,
        *final(option) == Some(*final(r)),
    opens_invariants none
    no_unwind
{
    match option {
        Some(value) => value,
        None => vstd::pervasive::unreached(),
    }
}

impl<T> SpinLock<T> {
    /// An unlocked lock around `data`.
    pub fn new(data: T) -> Self {
        SpinLock { data: Mutex::new(Some(data)), locked: AtomicBool::new(false) }
    }

    /// The guard that the thread which has won the flag gets, given what the
    /// lock held: a guard of this lock with that value, and without a value
    /// none.
    fn enter(&self, prev: Option<T>) -> (r: Option<SpinLockGuard<'_, T>>)
        ensures
            match prev {
                Some(v) => r matches Some(guard) && guard@ == v && guard.parent() == *self,
                None => r is None,
            },
    {
        match prev {
            Some(value) => Some(SpinLockGuard { held: Held { lock: self, value: Some(value) } }),
            None => None,
        }
    }

    /// Tries up to `spins` times to take the lock, with a hint to the
    /// processor after each failure. Whether a try succeeds depends on the
    /// other threads; a caller that must have the lock calls again.
    ///
    /// The swap is an acquire: reading `false` means that the guard whose
    /// drop stored it, and all that its holder did before, has happened.
    pub fn lock(&self, spins: usize) -> (r: Option<SpinLockGuard<'_, T>>)
        ensures
            spins == 0 ==> r is None,
            r matches Some(guard) ==> guard.parent() == *self,
    {
        let mut left: usize = spins;
        while left > 0
            invariant
                left <= spins,
            decreases left,
        {
            if won(self.locked.swap(true, Ordering::Acquire)) {
                let entered = self.enter(exchange(&self.data, None));
                if entered.is_some() {
                    return entered;
                }
                // The value left with a guard that was never dropped: there
                // is nothing to hold the lock for.
                clear(&self.locked);
            }
            std::hint::spin_loop();
            left = left - 1;
        }
        None
    }

    /// The value, once the lock itself is owned and so no guard can exist.
    /// There is none if it left with a guard that was never dropped.
    pub fn into_inner(this: Self) -> Option<T> {
        into_value(this.data)
    }
}

impl<'a, T> SpinLockGuard<'a, T> {
    /// A guard has the value for as long as it exists.
    #[verifier::type_invariant]
    spec fn has_value(&self) -> bool {
        self.held.value is Some
    }

    /// The lock that `self` is a guard of.
    pub closed spec fn parent(&self) -> SpinLock<T> {
        *self.held.lock
    }

    fn value_mut(&mut self) -> (r: &mut T)
        ensures
            *r == old(self)@,
            final(self)@ == *final(r),
            final(self).parent() == old(self).parent(),
        opens_invariants none
        no_unwind
    {
        proof {
            use_type_invariant(&*self);
        }
        some_mut(&mut self.held.value)
    }
}

impl<'a, T> View for SpinLockGuard<'a, T> {
    type V = T;

    /// The value.
    closed spec fn view(&self) -> T {
        self.held.value->0
    }
}

impl<'a, T> std::ops::Deref for SpinLockGuard<'a, T> {
    type Target = T;

    /// The value, for reading.
    fn deref(&self) -> (r: &T)
        ensures
            *r == self@,
    {
        proof {
            use_type_invariant(self);
        }
        match &self.held.value {
            Some(value) => value,
            None => vstd::pervasive::unreached(),
        }
    }
}

impl<'a, T> std::ops::DerefMut for SpinLockGuard<'a, T> {
    /// The value, for writing. What is written is the guard's value from
    /// then on.
    fn deref_mut(&mut self) -> (r: &mut T)
        ensures
            *r == old(self)@,
            final(self)@ == *final(r),
            final(self).parent() == old(self).parent(),
    {
        self.value_mut()
    }
}

impl<'a, T> Drop for Held<'a, T> {
    /// Brings the value back and unlocks. The store is a release: what the
    /// holder did to the value is visible to the thread that next reads
    /// `false`.
    fn drop(&mut self)
        opens_invariants none
        no_unwind
    {
        let mut back: Option<T> = None;
        std::mem::swap(&mut back, &mut self.value);
        let _ = exchange(&self.lock.data, back);
        clear(&self.lock.locked);
    }
}

} // verus!
