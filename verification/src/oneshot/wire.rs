//! The channel as a state machine, with the proofs that a value that was sent
//! leaves the channel exactly once, into the hands of the receiver or
//! destroyed with the block, and that the receiving thread is never left
//! parked beside a value that was sent.
//!
//! The machine has the steps of the channel, which are the atomic operations
//! of `send` and `recv`, and the steps of the program around it: the thread
//! that received nothing parks, and the thread that sent unparks it.

use vstd::prelude::*;

verus! {

/// How far the sending end has come.
pub enum SenderAt {
    /// It exists and has written nothing.
    Idle,
    /// It has written the value and not yet set the flag.
    Written,
    /// `send` is done, and its caller has not yet woken the receiving thread.
    Published,
    /// It is used up, or was dropped.
    Gone,
}

/// Where the receiving end stands.
pub enum ReceiverAt {
    /// It exists, and its thread is running and has not looked at the flag
    /// since it last ran.
    Watching,
    /// `recv` read the flag as unset and gave the receiver back, and the
    /// thread is about to park.
    Waiting,
    /// The thread is parked.
    Parked,
    /// It is used up, or was dropped.
    Gone,
}

/// The state of one channel.
pub struct Wire {
    /// Whether the block holds a value.
    pub full: bool,
    /// The flag, as stored.
    pub ready: bool,
    /// How far the sending end has come.
    pub sender: SenderAt,
    /// Where the receiving end stands.
    pub receiver: ReceiverAt,
    /// Whether the receiving thread has been unparked since it last parked.
    pub token: bool,
    /// Whether a value was ever written.
    pub sent: bool,
    /// How often a value was handed to the receiver.
    pub received: nat,
    /// How often a value was destroyed with the block.
    pub discarded: nat,
}

/// The steps of the two ends.
pub enum Step {
    /// `send` writes the value.
    Write,
    /// `send` sets the flag.
    Publish,
    /// The caller of `send` unparks the receiving thread, and with that the
    /// sending side is done.
    Wake,
    /// The sending end is dropped unused.
    Abandon,
    /// `recv` reads the flag, and takes the value if the flag is set.
    Poll,
    /// The caller of `recv` parks its thread, which goes on at once if it
    /// has been unparked since it last parked.
    Park,
    /// The parked thread goes on without having been unparked, as a parked
    /// thread may.
    Stir,
    /// The caller of `recv` goes on without parking.
    Yield,
    /// The receiving end is dropped.
    Hangup,
}

/// The state that `channel` makes.
pub open spec fn init() -> Wire {
    Wire {
        full: false,
        ready: false,
        sender: SenderAt::Idle,
        receiver: ReceiverAt::Watching,
        token: false,
        sent: false,
        received: 0,
        discarded: 0,
    }
}

/// Whether `step` can be taken in `s`: the end that takes it must exist and
/// be at that point.
pub open spec fn enabled(s: Wire, step: Step) -> bool {
    match step {
        Step::Write => s.sender is Idle,
        Step::Publish => s.sender is Written,
        Step::Wake => s.sender is Published,
        Step::Abandon => s.sender is Idle,
        Step::Poll => s.receiver is Watching,
        Step::Park => s.receiver is Waiting,
        Step::Stir => s.receiver is Parked,
        Step::Yield => s.receiver is Waiting,
        Step::Hangup => s.receiver is Watching,
    }
}

/// Whether the sending end is no more: it is used up once `send` has set the
/// flag.
pub open spec fn sender_gone(s: Wire) -> bool {
    s.sender is Published || s.sender is Gone
}

/// The block goes with the second end, and a value still in it goes with
/// the block.
pub open spec fn settle(s: Wire) -> Wire {
    if sender_gone(s) && s.receiver is Gone && s.full {
        Wire { full: false, discarded: s.discarded + 1, ..s }
    } else {
        s
    }
}

/// The state after `step` is taken in `s`.
pub open spec fn next(s: Wire, step: Step) -> Wire {
    match step {
        Step::Write => Wire { full: true, sent: true, sender: SenderAt::Written, ..s },
        Step::Publish => settle(Wire { ready: true, sender: SenderAt::Published, ..s }),
        Step::Wake => settle(
            if s.receiver is Parked {
                Wire { sender: SenderAt::Gone, receiver: ReceiverAt::Watching, ..s }
            } else {
                Wire { sender: SenderAt::Gone, token: true, ..s }
            },
        ),
        Step::Abandon => settle(Wire { sender: SenderAt::Gone, ..s }),
        Step::Poll => if s.ready {
            settle(
                Wire { full: false, received: s.received + 1, receiver: ReceiverAt::Gone, ..s },
            )
        } else {
            Wire { receiver: ReceiverAt::Waiting, ..s }
        },
        Step::Park => if s.token {
            Wire { token: false, receiver: ReceiverAt::Watching, ..s }
        } else {
            Wire { receiver: ReceiverAt::Parked, ..s }
        },
        Step::Stir => Wire { receiver: ReceiverAt::Watching, ..s },
        Step::Yield => Wire { receiver: ReceiverAt::Watching, ..s },
        Step::Hangup => settle(Wire { receiver: ReceiverAt::Gone, ..s }),
    }
}

/// The number of values in the block: one if it is full, none if not.
pub open spec fn inside(s: Wire) -> nat {
    if s.full {
        1
    } else {
        0
    }
}

/// Whether a value was sent and the receiving thread unparked after it.
pub open spec fn send_done(s: Wire) -> bool {
    s.sender is Gone && s.sent
}

/// What holds of a channel at every moment. The flag is set only after the
/// write; a receiver that sees the flag finds the value; a value that was
/// written is in exactly one place, in the block, with the receiver, or
/// destroyed; and a receiver that missed the flag has not missed the wake.
pub open spec fn inv(s: Wire) -> bool {
    &&& s.sender is Idle ==> !s.sent && !s.ready
    &&& s.sender is Written ==> s.sent && s.full && !s.ready
    &&& s.sender is Published ==> s.sent && s.ready
    &&& s.ready ==> s.sent
    &&& send_done(s) ==> s.ready
    &&& s.ready && !(s.receiver is Gone) ==> s.full
    &&& s.received > 0 ==> s.receiver is Gone
    &&& sender_gone(s) && s.receiver is Gone ==> !s.full
    &&& inside(s) + s.received + s.discarded == if s.sent { 1nat } else { 0nat }
    &&& s.receiver is Waiting && send_done(s) ==> s.token
    &&& s.receiver is Parked ==> !send_done(s)
}

/// The state after all of `steps` are taken from `s`, in order.
pub open spec fn run(s: Wire, steps: Seq<Step>) -> Wire
    decreases steps.len(),
{
    if steps.len() == 0 {
        s
    } else {
        next(run(s, steps.drop_last()), steps.last())
    }
}

/// Whether each of `steps` is enabled in the state in which it is taken.
pub open spec fn admissible(s: Wire, steps: Seq<Step>) -> bool
    decreases steps.len(),
{
    steps.len() == 0 || (admissible(s, steps.drop_last()) && enabled(
        run(s, steps.drop_last()),
        steps.last(),
    ))
}

/// No step breaks the invariant.
pub proof fn lemma_step_keeps_invariant(s: Wire, step: Step)
    requires
        inv(s),
        enabled(s, step),
    ensures
        inv(next(s, step)),
{
}

/// No interleaving of the two ends breaks the invariant.
pub proof fn lemma_run_keeps_invariant(steps: Seq<Step>)
    requires
        admissible(init(), steps),
    ensures
        inv(run(init(), steps)),
    decreases steps.len(),
{
    if steps.len() > 0 {
        lemma_run_keeps_invariant(steps.drop_last());
        lemma_step_keeps_invariant(run(init(), steps.drop_last()), steps.last());
    }
}

/// A receiver that reads the flag as set finds the value written.
pub proof fn lemma_ready_means_written(steps: Seq<Step>)
    requires
        admissible(init(), steps),
        enabled(run(init(), steps), Step::Poll),
        run(init(), steps).ready,
    ensures
        run(init(), steps).full,
        next(run(init(), steps), Step::Poll).received == 1,
{
    lemma_run_keeps_invariant(steps);
}

/// However the steps of the two ends interleave, a value is never received
/// twice, never destroyed twice, and never both; and once both ends are gone,
/// a value that was sent has been received or destroyed, so none is leaked.
pub proof fn lemma_value_leaves_once(steps: Seq<Step>)
    requires
        admissible(init(), steps),
    ensures
        ({
            let s = run(init(), steps);
            &&& s.received + s.discarded <= 1
            &&& sender_gone(s) && s.receiver is Gone ==> s.received + s.discarded == if s.sent {
                1nat
            } else {
                0nat
            }
        }),
{
    lemma_run_keeps_invariant(steps);
}

/// A value that was sent to a receiver that never receives is destroyed
/// exactly once, whether the receiver is dropped before the send, after it,
/// or in its midst.
pub proof fn lemma_unreceived_value_is_destroyed(steps: Seq<Step>)
    requires
        admissible(init(), steps),
        sender_gone(run(init(), steps)),
        run(init(), steps).receiver is Gone,
        run(init(), steps).sent,
        run(init(), steps).received == 0,
    ensures
        run(init(), steps).discarded == 1,
{
    lemma_run_keeps_invariant(steps);
}

/// No wake is missed: once a value was sent and the thread unparked, the
/// receiving thread is not parked, and if it is about to park it will go on
/// at once. So a thread that is parked for a value is parked before the
/// wake that follows a `send`, or beside a channel on which nothing was sent.
pub proof fn lemma_no_missed_wakeup(steps: Seq<Step>)
    requires
        admissible(init(), steps),
        send_done(run(init(), steps)),
    ensures
        !(run(init(), steps).receiver is Parked),
        run(init(), steps).receiver is Waiting ==> next(
            run(init(), steps),
            Step::Park,
        ).receiver is Watching,
        run(init(), steps).receiver is Watching ==> next(
            run(init(), steps),
            Step::Poll,
        ).received == 1,
{
    lemma_run_keeps_invariant(steps);
}

} // verus!
