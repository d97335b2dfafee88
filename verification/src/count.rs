//! What a reference count that was just read means.
//!
//! A count is only ever observed as the value an atomic operation hands back:
//! the value *before* an increment or decrement, or the value a load saw. The
//! functions here turn such an observation into the decision the protocol needs.

use vstd::prelude::*;

verus! {

/// Reported when an owner was about to be added to a count that already left
/// the lower half of its range. The condition is fatal: it means owners are
/// being created without bound, and the caller is expected to stop the process.
#[derive(Debug, Clone, Copy, PartialEq, Eq, Structural)]
pub struct Overflow;

/// The largest count to which one more owner may be added.
pub open spec fn limit() -> int {
    usize::MAX as int / 2
}

/// Whether `count` has left the range in which owners may be added.
pub open spec fn past_limit(count: int) -> bool {
    count > limit()
}

/// Whether a decrement that saw `prev` took the count to zero.
pub open spec fn is_last(prev: int) -> bool {
    prev == 1
}

/// Whether `total` owners of any kind means the observer is the only one.
pub open spec fn is_sole(total: int) -> bool {
    total == 1
}

/// The count that replaces `count` when a strong owner joins an object that
/// is still alive: nothing when the object is already dead (`count == 0`) or
/// the count is past the limit.
pub open spec fn raised(count: int) -> Option<int> {
    if count == 0 || past_limit(count) {
        None
    } else {
        Some(count + 1)
    }
}

/// Whether a conditional increment that meets `count` goes ahead.
pub open spec fn may_join(count: usize) -> bool {
    raised(count as int) is Some
}

/// What an attempt to join as a strong owner came to, given what the
/// conditional increment reported: `Ok(prev)` when it replaced `prev` by
/// `prev + 1`, `Err(seen)` when it left the count `seen` alone.
pub open spec fn joined(report: Result<usize, usize>) -> Result<bool, Overflow> {
    match report {
        Ok(_) => Ok(true),
        Err(seen) => if seen == 0 {
            Ok(false)
        } else {
            Err(Overflow)
        },
    }
}

/// Judges an increment that has already happened by the value it replaced.
pub fn check(prev: usize) -> (r: Result<(), Overflow>)
    ensures
        r is Err <==> past_limit(prev as int),
{
    if prev > usize::MAX / 2 {
        Err(Overflow)
    } else {
        Ok(())
    }
}

/// Tells the owner that just left whether it was the last one.
pub fn last(prev: usize) -> (r: bool)
    ensures
        r == is_last(prev as int),
    opens_invariants none
    no_unwind
{
    prev == 1
}

/// Tells the holder of a handle whether no other handle of any kind exists.
pub fn sole(total: usize) -> (r: bool)
    ensures
        r == is_sole(total as int),
{
    total == 1
}

/// The update rule of the conditional increment: the next count, or nothing
/// when the count must be left as it is.
pub fn raise(count: usize) -> (r: Option<usize>)
    ensures
        match r {
            Some(next) => raised(count as int) == Some(next as int),
            None => raised(count as int) is None,
        },
{
    if count == 0 || count > usize::MAX / 2 {
        None
    } else {
        Some(count + 1)
    }
}

/// Reads the report of a conditional increment.
pub fn join(report: Result<usize, usize>) -> (r: Result<bool, Overflow>)
    ensures
        r == joined(report),
{
    match report {
        Ok(_) => Ok(true),
        Err(seen) => if seen == 0 {
            Ok(false)
        } else {
            Err(Overflow)
        },
    }
}

/// An increment that passes [`check`] did not wrap: the count it stored is
/// the count it saw plus one. The same holds of every count [`raise`] returns.
pub proof fn lemma_checked_increment_is_exact(prev: usize)
    requires
        !past_limit(prev as int),
    ensures
        prev + 1 <= usize::MAX,
        prev > 0 ==> raised(prev as int) == Some(prev + 1),
{
}

/// A count cannot wrap unnoticed. From the first count that is past the
/// limit, at least `limit()` further increments are each reported as
/// [`Overflow`] before the count could reach the top of its range.
pub proof fn lemma_overflow_is_reported_before_wrap(count: usize, further: nat)
    requires
        count as int == limit() + 1,
        further < limit(),
    ensures
        past_limit(count + further),
        count + further < usize::MAX,
{
}

} // verus!
