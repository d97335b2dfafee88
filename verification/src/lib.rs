//! Concurrency primitives with a verified counting protocol: a shared-ownership
//! pointer with a weak companion ([`arc`]), a spin lock ([`spin_lock`]), and a
//! one-shot channel ([`oneshot`]).
//!
//! What a thread reads from an atomic depends on the other threads, so nothing
//! can be promised of it. What the thread then does is decided by small
//! verified functions ([`count`], [`spin_lock::gate::won`]), and the protocol
//! that these decisions make up is written down for each primitive as a state
//! machine, whose invariant is proved for every order in which threads may
//! take their steps.

pub mod arc;
pub mod count;
pub mod oneshot;
pub mod spin_lock;

mod sync;
