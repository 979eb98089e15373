//! The guarantees the recording core gives its callers, stated and proved
//! over the acquire / submit / complete transition relations.
//!
//! Exclusive acquisitions never alias: while any number of recorders obtained
//! with `chainable == false` are still open, no further acquisition can
//! return one of their slots, and a full pool of such recorders makes the
//! next acquisition fail rather than hand out a buffer twice.  A submitted
//! buffer stays pending — and cannot be re-acquired — until its completion is
//! reported.  Chainable acquisitions deliberately alias: two consecutive
//! chainable acquisitions share one slot and one native buffer.

use vstd::prelude::*;

use vstd::set_lib::*;

use crate::pool::{eligible, POOL_CAPACITY};
use crate::queue::{acquire_ok, complete_ok, submit_ok, Queue};
use crate::recorder::{Recorder, Submission};
use crate::command::ReplayStep;
use crate::state::{
    barriers_of, clamped, commands_before_nth_barrier, commands_of,
    lemma_plan_places_barriers, lemma_plan_preserves_barrier_order,
    lemma_plan_preserves_command_order,
};

verus! {

/// Slot `i` is held exclusively: it is recording and does not allow chaining,
/// so no acquisition may select it until it is submitted or released.
pub open spec fn open_exclusive(q: Queue, i: int) -> bool {
    &&& 0 <= i < q.pool.buffers@.len()
    &&& q.pool.buffers@[i].tags.recording
    &&& !q.pool.buffers@[i].tags.chainable
}

/// An acquisition never returns a slot that is exclusively held, and leaves
/// every exclusively held slot exclusively held.
pub proof fn lemma_acquire_never_aliases_open(
    pre: Queue,
    post: Queue,
    r: Recorder,
    chainable: bool,
    i: int,
)
    requires
        acquire_ok(pre, post, r, chainable),
        open_exclusive(pre, i),
    ensures
        r.index as int != i,
        open_exclusive(post, i),
{
    assert(!eligible(pre.pool.buffers@[i].tags));
    assert(eligible(pre.pool.buffers@[r.index as int].tags));
    assert(post.pool.buffers@[i] == pre.pool.buffers@[i]);
}

/// An acquisition with `chainable == false` leaves its slot exclusively
/// held.
pub proof fn lemma_acquire_opens_exclusive(pre: Queue, post: Queue, r: Recorder)
    requires
        acquire_ok(pre, post, r, false),
    ensures
        open_exclusive(post, r.index as int),
{
}

/// A run of successful acquisitions with `chainable == false`, none of them
/// yet submitted or released: `qs` are the queue states observed along the
/// way and `rs` the recorders handed out.
pub open spec fn acquire_chain(qs: Seq<Queue>, rs: Seq<Recorder>) -> bool {
    &&& qs.len() == rs.len() + 1
    &&& forall|k: int|
        0 <= k < rs.len() ==> #[trigger] acquire_ok(qs[k], qs[k + 1], rs[k], false)
}

/// Exclusive holds survive any further acquisitions of a chain.
pub proof fn lemma_open_preserved_along_chain(
    qs: Seq<Queue>,
    rs: Seq<Recorder>,
    i: int,
    a: int,
    b: int,
)
    requires
        acquire_chain(qs, rs),
        0 <= a <= b <= rs.len(),
        open_exclusive(qs[a], i),
    ensures
        open_exclusive(qs[b], i),
    decreases b - a,
{
    if a < b {
        lemma_acquire_never_aliases_open(qs[a], qs[a + 1], rs[a], false, i);
        lemma_open_preserved_along_chain(qs, rs, i, a + 1, b);
    }
}

/// No two recorders that are concurrently held out of non-chainable
/// acquisitions ever reference the same buffer slot.
pub proof fn lemma_concurrent_recorders_distinct(
    qs: Seq<Queue>,
    rs: Seq<Recorder>,
    j: int,
    k: int,
)
    requires
        acquire_chain(qs, rs),
        0 <= j < k < rs.len(),
    ensures
        rs[j].index != rs[k].index,
{
    lemma_acquire_opens_exclusive(qs[j], qs[j + 1], rs[j]);
    lemma_open_preserved_along_chain(qs, rs, rs[j].index as int, j + 1, k);
    lemma_acquire_never_aliases_open(qs[k], qs[k + 1], rs[k], false, rs[j].index as int);
}

/// The pool size is constant along a chain of acquisitions.
pub proof fn lemma_chain_pool_len(qs: Seq<Queue>, rs: Seq<Recorder>, k: int)
    requires
        acquire_chain(qs, rs),
        0 <= k <= rs.len(),
    ensures
        qs[k].pool.buffers@.len() == qs[0].pool.buffers@.len(),
    decreases k,
{
    if k > 0 {
        let p = k - 1;
        lemma_chain_pool_len(qs, rs, p);
        assert(acquire_ok(qs[p], qs[p + 1], rs[p], false));
    }
}

/// Holding as many non-chainable recorders as the pool has buffers exhausts
/// it: after a full chain no slot is eligible, so the next acquisition
/// deterministically fails instead of handing a held buffer out twice.
pub proof fn lemma_full_chain_exhausts_pool(qs: Seq<Queue>, rs: Seq<Recorder>)
    requires
        acquire_chain(qs, rs),
        rs.len() == POOL_CAPACITY,
        qs[0].pool.buffers@.len() == POOL_CAPACITY,
    ensures
        !qs[rs.len() as int].pool.has_eligible(),
{
    let n = rs.len() as int;
    let idxs: Seq<int> = Seq::new(rs.len(), |k: int| rs[k].index as int);
    assert forall|j: int, k: int|
        0 <= j < idxs.len() && 0 <= k < idxs.len() && j != k implies idxs[j] != idxs[k] by {
        if j < k {
            lemma_concurrent_recorders_distinct(qs, rs, j, k);
        } else {
            lemma_concurrent_recorders_distinct(qs, rs, k, j);
        }
    }
    assert(idxs.no_duplicates());
    idxs.unique_seq_to_set();
    let full = set_int_range(0, POOL_CAPACITY as int);
    lemma_int_range(0, POOL_CAPACITY as int);
    assert forall|x: int| idxs.to_set().contains(x) implies full.contains(x) by {
        let k = choose|k: int| 0 <= k < idxs.len() && idxs[k] == x;
        assert(acquire_ok(qs[k], qs[k + 1], rs[k], false));
    }
    assert(idxs.to_set() <= full);
    lemma_subset_equality(idxs.to_set(), full);
    assert forall|i: int| 0 <= i < POOL_CAPACITY implies open_exclusive(qs[n], i) by {
        assert(full.contains(i));
        assert(idxs.to_set().contains(i));
        let k = choose|k: int| 0 <= k < idxs.len() && idxs[k] == i;
        lemma_acquire_opens_exclusive(qs[k], qs[k + 1], rs[k]);
        lemma_open_preserved_along_chain(qs, rs, i, k + 1, n);
    }
    lemma_chain_pool_len(qs, rs, n);
    assert forall|i: int|
        0 <= i < qs[n].pool.buffers@.len() implies !eligible(
        #[trigger] qs[n].pool.buffers@[i].tags,
    ) by {
        assert(open_exclusive(qs[n], i));
    }
}

/// A submitted buffer cannot be re-acquired while it is pending: any
/// acquisition between the submission and its completion returns a different
/// slot.
pub proof fn lemma_pending_blocks_reuse(
    pre: Queue,
    post: Queue,
    rec: Recorder,
    sub: Submission,
    steps: Seq<ReplayStep>,
    post2: Queue,
    r2: Recorder,
    chainable: bool,
)
    requires
        submit_ok(pre, post, rec, sub, steps),
        acquire_ok(post, post2, r2, chainable),
    ensures
        r2.index != sub.index,
{
    assert(!eligible(post.pool.buffers@[sub.index as int].tags));
    assert(eligible(post.pool.buffers@[r2.index as int].tags));
}

/// Once a submission is reported complete, its buffer's pending tag is
/// cleared and the slot is eligible again, so the pool as a whole is
/// guaranteed to have an eligible buffer.
pub proof fn lemma_complete_enables_reuse(
    pre: Queue,
    post: Queue,
    rec: Recorder,
    sub: Submission,
    steps: Seq<ReplayStep>,
    post2: Queue,
)
    requires
        submit_ok(pre, post, rec, sub, steps),
        complete_ok(post, post2, sub.index as int),
    ensures
        !post2.pool.buffers@[sub.index as int].tags.pending,
        eligible(post2.pool.buffers@[sub.index as int].tags),
        post2.pool.has_eligible(),
{
    assert(eligible(post2.pool.buffers@[sub.index as int].tags));
}

/// Two consecutive chainable acquisitions share one slot: the second
/// recorder is issued from the same buffer index and the same native buffer
/// as the first, still-open one.  This aliasing is deliberate — chaining
/// appends a second logical recording session to the same native buffer.
pub proof fn lemma_chainable_reuse(
    q0: Queue,
    q1: Queue,
    r1: Recorder,
    q2: Queue,
    r2: Recorder,
    chainable2: bool,
)
    requires
        acquire_ok(q0, q1, r1, true),
        acquire_ok(q1, q2, r2, chainable2),
    ensures
        r2.index == r1.index,
        r2.raw == r1.raw,
{
    let i1 = r1.index as int;
    let i2 = r2.index as int;
    assert(eligible(q1.pool.buffers@[i1].tags));
    if i2 < i1 {
        assert(q1.pool.buffers@[i2] == q0.pool.buffers@[i2]);
        assert(!eligible(q0.pool.buffers@[i2].tags));
        assert(false);
    }
    if i2 > i1 {
        assert(!eligible(q1.pool.buffers@[i1].tags));
        assert(false);
    }
}

/// Submission replays the recording faithfully: the plan's commands are the
/// recorded commands in insertion order, and the plan's barriers are the
/// recorded barriers in insertion order.
pub proof fn lemma_submit_replays_in_order(
    pre: Queue,
    post: Queue,
    rec: Recorder,
    sub: Submission,
    steps: Seq<ReplayStep>,
)
    requires
        submit_ok(pre, post, rec, sub, steps),
    ensures
        commands_of(steps) == rec.state.commands@,
        barriers_of(steps) == rec.state.barriers@,
{
    lemma_plan_preserves_command_order(rec.state.commands@, rec.state.barriers@, 0);
    lemma_plan_preserves_barrier_order(rec.state.commands@, rec.state.barriers@, 0);
}

/// Submission interleaves barriers at their recorded positions: for a
/// well-formed recording, the `j`-th barrier step of the plan comes after
/// exactly `command_index_after` of the recorded commands.
pub proof fn lemma_submit_places_barriers(
    pre: Queue,
    post: Queue,
    rec: Recorder,
    sub: Submission,
    steps: Seq<ReplayStep>,
    j: int,
)
    requires
        submit_ok(pre, post, rec, sub, steps),
        rec.state.wf(),
        0 <= j < rec.state.barriers@.len(),
    ensures
        commands_before_nth_barrier(steps, j)
            == rec.state.barriers@[j].command_index_after,
{
    lemma_plan_places_barriers(rec.state.commands@, rec.state.barriers@, 0, j);
    assert(clamped(
        rec.state.barriers@[j].command_index_after as int,
        rec.state.commands@.len() as int,
    ) == rec.state.barriers@[j].command_index_after);
}

} // verus!
