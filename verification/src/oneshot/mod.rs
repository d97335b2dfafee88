//! A channel that carries one value from one end to the other.
//!
//! [`channel`] makes the two ends. Each end is used up by its one operation,
//! so a value is sent at most once and received at most once. A value that
//! was sent and never received is destroyed with the block, when the second
//! of the two ends goes.
//!
//! The channel does not wait. [`Receiver::recv`] looks once and gives the
//! receiver back if nothing has come; the program around it is to park its
//! thread and call again, and the program that called [`Sender::send`] is to
//! unpark that thread. The state machine in [`wire`] has these two steps
//! beside the channel's own, and proves that a value leaves the channel
//! exactly once and that no wake is missed, however the steps interleave.

pub mod wire;

use crate::sync::{exchange, share};
use std::sync::atomic::{AtomicBool, Ordering};
use std::sync::Mutex;
use vstd::prelude::*;

verus! {

/// What the two ends share.
#[verifier::reject_recursive_types(T)]
struct Inner<T> {
    /// The value, from the moment it is sent until it is received.
    data: Mutex<Option<T>>,
    /// Set, by a release, once `data` has been written.
    ready: AtomicBool,
}

/// The end that sends.
#[verifier::reject_recursive_types(T)]
pub struct Sender<T> {
    inner: std::sync::Arc<Inner<T>>,
}

/// The end that receives.
#[verifier::reject_recursive_types(T)]
pub struct Receiver<T> {
    inner: std::sync::Arc<Inner<T>>,
}

/// Whether `tx` and `rx` are the two ends of one channel.
pub closed spec fn paired<T>(tx: &Sender<T>, rx: &Receiver<T>) -> bool {
    tx.inner == rx.inner
}

/// A new channel, with nothing in it.
pub fn channel<T>() -> (ends: (Sender<T>, Receiver<T>))
    ensures
        paired(&ends.0, &ends.1),
{
    let inner = std::sync::Arc::new(
        Inner { data: Mutex::new(None), ready: AtomicBool::new(false) },
    );
    (Sender { inner: share(&inner) }, Receiver { inner })
}

impl<T> Sender<T> {
    /// Sends `data`: writes it, then publishes the write. The store is a
    /// release, so that whoever reads the flag as set finds the value.
    /// Waking the thread that waits for the value is left to the caller.
    pub fn send(self, data: T) {
        let _ = exchange(&self.inner.data, Some(data));
        self.inner.ready.store(true, Ordering::Release);
    }
}

impl<T> Receiver<T> {
    /// What `recv` comes to once the flag was read as set, given what the
    /// block held then: the value, and without one the receiver itself.
    fn deliver(self, taken: Option<T>) -> (r: Result<T, Receiver<T>>)
        ensures
            taken matches Some(data) ==> r == Ok::<T, Receiver<T>>(data),
            taken is None ==> r == Err::<T, Receiver<T>>(self),
    {
        match taken {
            Some(data) => Ok(data),
            None => Err(self),
        }
    }

    /// Looks for the value once. Gives the receiver back if the value has
    /// not come: the caller is to park its thread and call again.
    ///
    /// The flag is read by an acquire: reading it as set means that the
    /// write of the value, which came before the release that set it, has
    /// happened.
    pub fn recv(self) -> (r: Result<T, Receiver<T>>)
        ensures
            r matches Err(back) ==> back == self,
    {
        if self.inner.ready.load(Ordering::Acquire) {
            // The flag is set after the write and the value taken only
            // here, so there is a value to deliver.
            let taken = exchange(&self.inner.data, None);
            self.deliver(taken)
        } else {
            Err(self)
        }
    }
}

} // verus!
