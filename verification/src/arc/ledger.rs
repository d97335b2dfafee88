//! The counting protocol of [`Arc`](super::Arc) and [`Weak`](super::Weak) as a
//! state machine, and what holds of it in every interleaving.
//!
//! A state records the two counts as they stand in the block, what has become
//! of the payload and of the block, and, as bookkeeping for the proofs, how
//! many handles exist. A step is one atomic operation on a count together with
//! what the thread that performed it does next on the strength of the value it
//! saw. Threads do not appear: any sequence of enabled steps is a possible
//! interleaving, whichever threads the steps belong to.

use crate::count::{is_last, is_sole, limit, past_limit, raised};
use vstd::prelude::*;

verus! {

/// The state of one block.
pub struct Ledger {
    /// The count of owners, as stored.
    pub arc_count: nat,
    /// The count of handles of either kind, as stored.
    pub total_count: nat,
    /// Whether the payload exists.
    pub payload: bool,
    /// Whether the block is allocated.
    pub block: bool,
    /// How often the payload was destroyed.
    pub payload_drops: nat,
    /// How often the block was released.
    pub block_frees: nat,
    /// The `Arc` handles that exist.
    pub arcs: nat,
    /// The holders of a unit of `total_count` that own no unit of
    /// `arc_count`: the `Weak` handles, and for a moment the `Weak` inside an
    /// `Arc` that is being made or has begun to be dropped.
    pub weaks: nat,
    /// Whether `Arc::get_mut` has handed out the payload and the borrow has
    /// not ended. The `Arc` it was called on can take no step until then.
    pub lent: bool,
}

/// The atomic operations of the protocol.
pub enum Step {
    /// `total_count` is incremented: a `Weak` is made from a handle that
    /// exists. `Weak::clone` and `Arc::downgrade` are this step; `Arc::clone`
    /// and `Weak::upgrade` begin with it.
    Share,
    /// `arc_count` is incremented unless it is zero: a `Weak` tries to turn
    /// into an `Arc`. This is how `Weak::upgrade` ends, and `Arc::clone` too,
    /// for which the count cannot be zero.
    Join,
    /// `arc_count` is decremented: an `Arc` begins to be dropped, and the
    /// `Weak` inside it is left over. The thread that saw the count at one
    /// destroys the payload.
    Leave,
    /// `total_count` is decremented: a `Weak` is dropped. The thread that saw
    /// the count at one releases the block.
    Release,
    /// `total_count` is loaded by `Arc::get_mut`, which hands out the payload
    /// if it reads one.
    Borrow,
    /// The borrow of the payload ends.
    Return,
}

/// The state that `Arc::new` makes.
pub open spec fn init() -> Ledger {
    Ledger {
        arc_count: 1,
        total_count: 1,
        payload: true,
        block: true,
        payload_drops: 0,
        block_frees: 0,
        arcs: 1,
        weaks: 0,
        lent: false,
    }
}

/// The `Arc` handles that are free to take a step: all of them, but for the
/// one whose payload is lent out.
pub open spec fn free_arcs(s: Ledger) -> int {
    if s.lent {
        s.arcs - 1
    } else {
        s.arcs as int
    }
}

/// Whether `step` can be taken in `s`: there must be a handle to take it
/// with, one that is not borrowed for as long as the payload is lent out,
/// and an increment of `total_count` is only modelled below the limit, past
/// which it is reported as an overflow and ends the run.
pub open spec fn enabled(s: Ledger, step: Step) -> bool {
    match step {
        Step::Share => free_arcs(s) + s.weaks > 0 && !past_limit(s.total_count as int),
        Step::Join => s.weaks > 0,
        Step::Leave => free_arcs(s) > 0,
        Step::Release => s.weaks > 0,
        Step::Borrow => free_arcs(s) > 0,
        Step::Return => s.lent,
    }
}

/// Whether a `Join` taken in `s` makes an `Arc`.
pub open spec fn join_succeeds(s: Ledger) -> bool {
    raised(s.arc_count as int) is Some
}

/// Whether `Arc::get_mut`, called in `s`, hands out the payload.
pub open spec fn exclusive(s: Ledger) -> bool {
    is_sole(s.total_count as int)
}

/// The state after `step` is taken in `s`.
pub open spec fn next(s: Ledger, step: Step) -> Ledger {
    match step {
        Step::Share => Ledger {
            total_count: s.total_count + 1,
            weaks: s.weaks + 1,
            ..s
        },
        Step::Join => match raised(s.arc_count as int) {
            Some(count) => Ledger {
                arc_count: count as nat,
                arcs: s.arcs + 1,
                weaks: (s.weaks - 1) as nat,
                ..s
            },
            None => s,
        },
        Step::Leave => Ledger {
            arc_count: (s.arc_count - 1) as nat,
            arcs: (s.arcs - 1) as nat,
            weaks: s.weaks + 1,
            payload: s.payload && !is_last(s.arc_count as int),
            payload_drops: if is_last(s.arc_count as int) {
                s.payload_drops + 1
            } else {
                s.payload_drops
            },
            ..s
        },
        Step::Release => Ledger {
            total_count: (s.total_count - 1) as nat,
            weaks: (s.weaks - 1) as nat,
            block: s.block && !is_last(s.total_count as int),
            block_frees: if is_last(s.total_count as int) {
                s.block_frees + 1
            } else {
                s.block_frees
            },
            ..s
        },
        Step::Borrow => Ledger { lent: s.lent || exclusive(s), ..s },
        Step::Return => Ledger { lent: false, ..s },
    }
}

/// What holds between the counts, the handles and the fate of payload and
/// block. The counts are exact; the payload exists as long as an `Arc` does
/// and has been destroyed once when none does; the same for the block and
/// handles of either kind.
pub open spec fn inv(s: Ledger) -> bool {
    &&& s.arc_count == s.arcs
    &&& s.total_count == s.arcs + s.weaks
    &&& s.total_count <= limit() + 1
    &&& s.payload <==> s.arcs > 0
    &&& s.payload_drops == if s.arcs > 0 { 0nat } else { 1nat }
    &&& s.block <==> s.arcs + s.weaks > 0
    &&& s.block_frees == if s.arcs + s.weaks > 0 { 0nat } else { 1nat }
    &&& s.lent ==> s.arcs == 1 && s.weaks == 0
}

/// The state after all of `steps` are taken from `s`, in order.
pub open spec fn run(s: Ledger, steps: Seq<Step>) -> Ledger
    decreases steps.len(),
{
    if steps.len() == 0 {
        s
    } else {
        next(run(s, steps.drop_last()), steps.last())
    }
}

/// Whether each of `steps` is enabled in the state in which it is taken.
pub open spec fn admissible(s: Ledger, steps: Seq<Step>) -> bool
    decreases steps.len(),
{
    steps.len() == 0 || (admissible(s, steps.drop_last()) && enabled(
        run(s, steps.drop_last()),
        steps.last(),
    ))
}

/// The invariant holds of a new object.
pub proof fn lemma_init_is_sound()
    ensures
        inv(init()),
{
}

/// No step breaks the invariant.
pub proof fn lemma_step_keeps_invariant(s: Ledger, step: Step)
    requires
        inv(s),
        enabled(s, step),
    ensures
        inv(next(s, step)),
{
}

/// A prefix of an admissible run is admissible.
pub proof fn lemma_prefix_is_admissible(s: Ledger, steps: Seq<Step>, i: int)
    requires
        admissible(s, steps),
        0 <= i <= steps.len(),
    ensures
        admissible(s, steps.take(i)),
    decreases steps.len(),
{
    if i == steps.len() {
        assert(steps.take(i) =~= steps);
    } else {
        assert(steps.drop_last().take(i) =~= steps.take(i));
        lemma_prefix_is_admissible(s, steps.drop_last(), i);
    }
}

/// No interleaving breaks the invariant.
pub proof fn lemma_run_keeps_invariant(s: Ledger, steps: Seq<Step>)
    requires
        inv(s),
        admissible(s, steps),
    ensures
        inv(run(s, steps)),
    decreases steps.len(),
{
    if steps.len() > 0 {
        lemma_run_keeps_invariant(s, steps.drop_last());
        lemma_step_keeps_invariant(run(s, steps.drop_last()), steps.last());
    }
}

/// In every interleaving of the steps of any number of handles, at every
/// point: the payload has been destroyed exactly once if no `Arc` is left and
/// not at all if one is, and the block has been released exactly once if no
/// handle of either kind is left and not at all if one is.
pub proof fn lemma_teardown_happens_once(steps: Seq<Step>, i: int)
    requires
        admissible(init(), steps),
        0 <= i <= steps.len(),
    ensures
        ({
            let s = run(init(), steps.take(i));
            &&& s.payload_drops == if s.arcs > 0 { 0nat } else { 1nat }
            &&& s.payload <==> s.arcs > 0
            &&& s.block_frees == if s.arcs + s.weaks > 0 { 0nat } else { 1nat }
            &&& s.block <==> s.arcs + s.weaks > 0
        }),
{
    lemma_prefix_is_admissible(init(), steps, i);
    lemma_run_keeps_invariant(init(), steps.take(i));
}

/// The payload is destroyed by the step that drops the last `Arc`, and by no
/// other; the block is released by the step that drops the last handle of
/// either kind, and by no other.
pub proof fn lemma_teardown_is_the_last_drop(s: Ledger, step: Step)
    requires
        inv(s),
        enabled(s, step),
    ensures
        next(s, step).payload_drops == s.payload_drops + 1 <==> step is Leave && s.arcs == 1,
        next(s, step).payload_drops == s.payload_drops <==> !(step is Leave && s.arcs == 1),
        next(s, step).block_frees == s.block_frees + 1 <==> step is Release && s.arcs + s.weaks
            == 1,
        next(s, step).block_frees == s.block_frees <==> !(step is Release && s.arcs + s.weaks
            == 1),
{
}

/// Where the last handle of either kind is an `Arc`, dropping it destroys the
/// payload and releases the block, both for the first and only time.
pub proof fn lemma_last_handle_takes_all(s: Ledger)
    requires
        inv(s),
        s.arcs == 1,
        s.weaks == 0,
        !s.lent,
    ensures
        s.payload && s.payload_drops == 0,
        s.block && s.block_frees == 0,
        enabled(s, Step::Leave),
        enabled(next(s, Step::Leave), Step::Release),
        ({
            let t = next(next(s, Step::Leave), Step::Release);
            &&& !t.payload && t.payload_drops == 1
            &&& !t.block && t.block_frees == 1
            &&& t.arcs + t.weaks == 0
        }),
{
}

/// `Arc::get_mut` hands out the payload if and only if the `Arc` it is called
/// on is the only `Arc` and there is no `Weak`.
pub proof fn lemma_exclusive_iff_alone(s: Ledger)
    requires
        inv(s),
        enabled(s, Step::Borrow),
    ensures
        exclusive(s) <==> s.arcs == 1 && s.weaks == 0,
        next(s, Step::Borrow).lent <==> s.arcs == 1 && s.weaks == 0,
{
}

/// While the payload is lent out, in whatever interleaving it came to be,
/// no step can be taken but the end of the borrow: no `Weak` can be upgraded,
/// for there is none, and none can be made, for the one handle there is is
/// borrowed. The payload is there for all of that time.
pub proof fn lemma_lent_payload_is_alone(steps: Seq<Step>, step: Step)
    requires
        admissible(init(), steps),
        run(init(), steps).lent,
        enabled(run(init(), steps), step),
    ensures
        step is Return,
        run(init(), steps).payload,
        run(init(), steps).arcs == 1,
        run(init(), steps).weaks == 0,
{
    lemma_run_keeps_invariant(init(), steps);
}

/// Once the last `Arc` is gone, no `Join` succeeds, whatever steps are taken
/// before it, and the count of owners stays at zero.
pub proof fn lemma_dead_stays_dead(s: Ledger, steps: Seq<Step>)
    requires
        inv(s),
        s.arc_count == 0,
        admissible(s, steps),
    ensures
        run(s, steps).arc_count == 0,
        run(s, steps).arcs == 0,
        !join_succeeds(run(s, steps)),
        inv(run(s, steps)),
    decreases steps.len(),
{
    if steps.len() > 0 {
        lemma_dead_stays_dead(s, steps.drop_last());
    }
}

/// A `Weak` that is upgraded while the last `Arc` is dropped either comes
/// first, and then the `Arc` that is dropped was not the last and the payload
/// lives on, or comes second, and then it fails and the payload has been
/// destroyed once. Neither order destroys the payload under an owner.
pub proof fn lemma_upgrade_races_last_drop(s: Ledger)
    requires
        inv(s),
        s.arcs == 1,
        s.weaks >= 1,
    ensures
        ({
            let first = next(s, Step::Join);
            let then = next(first, Step::Leave);
            &&& join_succeeds(s)
            &&& enabled(first, Step::Leave)
            &&& then.arcs == 1 && then.payload && then.payload_drops == 0
        }),
        ({
            let first = next(s, Step::Leave);
            let then = next(first, Step::Join);
            &&& enabled(first, Step::Join)
            &&& !join_succeeds(first)
            &&& then.arcs == 0 && !then.payload && then.payload_drops == 1
        }),
{
}

} // verus!
