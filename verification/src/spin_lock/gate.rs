//! A [`SpinLock`](super::SpinLock) as a state machine: the flag, the value
//! and where the value is. It is proved that the flag admits one holder at a
//! time and that no write made through a guard is lost.
//!
//! The value is taken to be a sequence and a write to be a push, so that the
//! value shows every write that was made and the order they were made in.
//! Threads are numbers.

use vstd::prelude::*;

verus! {

/// The state of one lock.
pub struct Gate {
    /// The flag, as stored.
    pub locked: bool,
    /// The thread that has the guard, if there is a guard.
    pub holder: Option<int>,
    /// The value, while it is in the lock.
    pub stored: Option<Seq<int>>,
    /// The value, while it is in the guard.
    pub held: Option<Seq<int>>,
    /// The value the lock was made with.
    pub initial: Seq<int>,
    /// All that was pushed, in the order it was pushed in.
    pub log: Seq<int>,
}

/// The steps of the threads.
pub enum Step {
    /// The thread swaps the flag to `true`: it tries to enter, and takes the
    /// value if it has entered.
    Attempt(int),
    /// The thread pushes onto the value through its guard.
    Push(int, int),
    /// The thread drops its guard: the value goes back and the flag is
    /// stored as `false`.
    Release(int),
}

/// Whether the thread whose swap returned `prev` has entered.
pub open spec fn acquired(prev: bool) -> bool {
    !prev
}

/// The state that `SpinLock::new` makes around `value`.
pub open spec fn init(value: Seq<int>) -> Gate {
    Gate {
        locked: false,
        holder: None,
        stored: Some(value),
        held: None,
        initial: value,
        log: Seq::empty(),
    }
}

/// Whether `step` can be taken in `s`. Any thread may try to enter at any
/// time; only the thread that has the guard can write through it or drop it.
pub open spec fn enabled(s: Gate, step: Step) -> bool {
    match step {
        Step::Attempt(thread) => s.holder != Some(thread),
        Step::Push(thread, x) => s.holder == Some(thread),
        Step::Release(thread) => s.holder == Some(thread),
    }
}

/// The state after `step` is taken in `s`.
pub open spec fn next(s: Gate, step: Step) -> Gate {
    match step {
        Step::Attempt(thread) => if acquired(s.locked) {
            Gate { locked: true, holder: Some(thread), held: s.stored, stored: None, ..s }
        } else {
            Gate { locked: true, ..s }
        },
        Step::Push(thread, x) => Gate {
            held: Some(s.held->0.push(x)),
            log: s.log.push(x),
            ..s
        },
        Step::Release(thread) => Gate {
            locked: false,
            holder: None,
            stored: s.held,
            held: None,
            ..s
        },
    }
}

/// The value, wherever it is.
pub open spec fn value(s: Gate) -> Seq<int> {
    match s.stored {
        Some(v) => v,
        None => s.held->0,
    }
}

/// The flag is set exactly while a thread has the guard; the value is in
/// the guard exactly then, and in the lock otherwise; and the value is what
/// the lock was made with, followed by all that was pushed.
pub open spec fn inv(s: Gate) -> bool {
    &&& s.locked <==> s.holder is Some
    &&& s.held is Some <==> s.holder is Some
    &&& s.stored is Some <==> s.holder is None
    &&& value(s) == s.initial + s.log
}

/// The state after all of `steps` are taken from `s`, in order.
pub open spec fn run(s: Gate, steps: Seq<Step>) -> Gate
    decreases steps.len(),
{
    if steps.len() == 0 {
        s
    } else {
        next(run(s, steps.drop_last()), steps.last())
    }
}

/// Whether each of `steps` is enabled in the state in which it is taken.
pub open spec fn admissible(s: Gate, steps: Seq<Step>) -> bool
    decreases steps.len(),
{
    steps.len() == 0 || (admissible(s, steps.drop_last()) && enabled(
        run(s, steps.drop_last()),
        steps.last(),
    ))
}

/// What `steps` push, in order.
pub open spec fn pushes(steps: Seq<Step>) -> Seq<int>
    decreases steps.len(),
{
    if steps.len() == 0 {
        Seq::empty()
    } else {
        match steps.last() {
            Step::Push(thread, x) => pushes(steps.drop_last()).push(x),
            _ => pushes(steps.drop_last()),
        }
    }
}

/// Whether the thread that swaps the flag decides that it has entered, given
/// what the swap returned.
pub fn won(prev: bool) -> (r: bool)
    ensures
        r == acquired(prev),
{
    !prev
}

/// No step breaks the invariant.
pub proof fn lemma_step_keeps_invariant(s: Gate, step: Step)
    requires
        inv(s),
        enabled(s, step),
    ensures
        inv(next(s, step)),
{
    match step {
        Step::Push(thread, x) => {
            assert(value(next(s, step)) =~= s.initial + s.log.push(x));
        },
        _ => {},
    }
}

/// Mutual exclusion: however the steps of any number of threads interleave,
/// at most one thread has the guard, the flag is set exactly while one has
/// it, and only that thread can write.
pub proof fn lemma_one_holder(initial: Seq<int>, steps: Seq<Step>)
    requires
        admissible(init(initial), steps),
    ensures
        inv(run(init(initial), steps)),
        run(init(initial), steps).locked <==> run(init(initial), steps).holder is Some,
        forall|thread: int, x: int| #[trigger]
            enabled(run(init(initial), steps), Step::Push(thread, x)) ==> run(
                init(initial),
                steps,
            ).holder == Some(thread),
    decreases steps.len(),
{
    if steps.len() > 0 {
        lemma_one_holder(initial, steps.drop_last());
        lemma_step_keeps_invariant(run(init(initial), steps.drop_last()), steps.last());
    } else {
        assert(initial + Seq::<int>::empty() =~= initial);
    }
}

/// No write is lost: however the steps interleave, the value is what the
/// lock was made with, followed by every push that was made through a guard,
/// each once and in the order they were made in.
pub proof fn lemma_no_write_is_lost(initial: Seq<int>, steps: Seq<Step>)
    requires
        admissible(init(initial), steps),
    ensures
        run(init(initial), steps).log == pushes(steps),
        value(run(init(initial), steps)) == initial + pushes(steps),
        run(init(initial), steps).initial == initial,
    decreases steps.len(),
{
    lemma_one_holder(initial, steps);
    if steps.len() > 0 {
        lemma_no_write_is_lost(initial, steps.drop_last());
    }
}

/// The writes of one guard stay together: from the moment a thread has the
/// guard until it drops it, no other thread has it, so no other thread's
/// push can come between two of its own.
pub proof fn lemma_holder_keeps_the_lock(s: Gate, thread: int, step: Step)
    requires
        inv(s),
        s.holder == Some(thread),
        enabled(s, step),
        step != Step::Release(thread),
    ensures
        next(s, step).holder == Some(thread),
        step matches Step::Push(other, x) ==> other == thread,
{
}

/// An attempt makes a guard if and only if none exists.
pub proof fn lemma_attempt_enters_iff_free(s: Gate, thread: int)
    requires
        inv(s),
        enabled(s, Step::Attempt(thread)),
    ensures
        next(s, Step::Attempt(thread)).holder == Some(thread) <==> s.holder is None,
        s.holder is Some ==> next(s, Step::Attempt(thread)).holder == s.holder,
{
}

/// The first guard of a lock has the value the lock was made with.
pub proof fn lemma_first_guard_has_the_initial_value(initial: Seq<int>, thread: int)
    ensures
        enabled(init(initial), Step::Attempt(thread)),
        next(init(initial), Step::Attempt(thread)).held == Some(initial),
{
}

/// The drop of a guard is the unlock, and the next guard has the value the
/// last one left: after a release, the next attempt enters and finds what
/// the guard that was dropped had.
pub proof fn lemma_next_guard_has_what_the_last_left(s: Gate, thread: int, other: int)
    requires
        inv(s),
        s.holder == Some(thread),
    ensures
        !next(s, Step::Release(thread)).locked,
        enabled(next(s, Step::Release(thread)), Step::Attempt(other)),
        next(next(s, Step::Release(thread)), Step::Attempt(other)).holder == Some(other),
        next(next(s, Step::Release(thread)), Step::Attempt(other)).held == s.held,
{
}

} // verus!
