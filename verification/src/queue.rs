//! The queue: acquisition and submission of pooled command buffers.
//!
//! The queue owns one pool for one native queue and mediates the whole
//! lifecycle: `acquire` claims an eligible buffer and hands out a recorder,
//! `submit` drains a recorder into an ordered replay plan and marks the
//! buffer pending, `complete` returns a buffer to idle once its submission
//! has finished on the device, and `release` abandons an unsubmitted
//! recorder.  The native begin/replay/end/submit/wait calls themselves are
//! performed by unverified glue, which walks the replay plan returned by
//! `submit`.
//!
//! Selecting and claiming a buffer happens inside one `&mut self` call, so
//! the eligibility check and the tag update are atomic with respect to any
//! other acquisition.

use vstd::prelude::*;

use crate::adapter::QueueFamily;
use crate::command::ReplayStep;
use crate::error::Error;
use crate::pool::{CommandBufferTags, Pool, POOL_CAPACITY};
use crate::recorder::{Recorder, Submission};
use crate::state::{merge_plan, State};

verus! {

/// The graphics capability bit of a queue family's flags.
pub const QUEUE_FLAG_GRAPHICS: u32 = 1;

/// Whether `flags` contains every bit of `required`.
pub open spec fn flags_contain(flags: u32, required: u32) -> bool {
    flags & required == required
}

/// Whether a queue family satisfies the requested capability flags, and
/// presentation support whenever presentation is requested.
pub open spec fn family_qualifies(f: QueueFamily, supports_presenting: bool, required: u32) -> bool {
    flags_contain(f.flags, required) && (!supports_presenting || f.surface_supported)
}

/// The main queue: one queue family, one native queue handle, one pool of
/// command buffers.
#[derive(Debug)]
pub struct Queue {
    /// The index of the queue family the queue was created from.
    pub qfi: u32,
    /// The native queue handle.
    pub raw: u64,
    /// The command-buffer pool serving this queue.
    pub pool: Pool,
}

/// A successful acquisition: `r` was issued from the first eligible slot of
/// `pre`'s pool, that slot is now recording (with the requested chainability)
/// and its state is taken, and everything else is unchanged.
pub open spec fn acquire_ok(pre: Queue, post: Queue, r: Recorder, chainable: bool) -> bool {
    &&& r.index < POOL_CAPACITY
    &&& pre.pool.first_eligible_is(r.index as int)
    &&& r.raw == pre.pool.buffers@[r.index as int].raw
    &&& r.state.is_clear()
    &&& r.state.wf()
    &&& post.qfi == pre.qfi
    &&& post.raw == pre.raw
    &&& post.pool.raw == pre.pool.raw
    &&& post.pool.buffers@.len() == pre.pool.buffers@.len()
    &&& post.pool.buffers@[r.index as int].raw == pre.pool.buffers@[r.index as int].raw
    &&& post.pool.buffers@[r.index as int].tags == (CommandBufferTags {
        chainable,
        recording: true,
        pending: false,
    })
    &&& post.pool.buffers@[r.index as int].state is None
    &&& forall|j: int|
        0 <= j < pre.pool.buffers@.len() && j != r.index ==> #[trigger] post.pool.buffers@[j]
            == pre.pool.buffers@[j]
}

/// A completed submission call: the receipt names the recorder's slot, the
/// plan is exactly the merge of the recorder's commands and barriers, the
/// slot is now pending (no longer recording) with a fresh empty state, and
/// everything else is unchanged.
pub open spec fn submit_ok(
    pre: Queue,
    post: Queue,
    rec: Recorder,
    sub: Submission,
    steps: Seq<ReplayStep>,
) -> bool {
    &&& sub.index == rec.index
    &&& steps == merge_plan(rec.state.commands@, rec.state.barriers@, 0)
    &&& rec.index < pre.pool.buffers@.len()
    &&& post.qfi == pre.qfi
    &&& post.raw == pre.raw
    &&& post.pool.raw == pre.pool.raw
    &&& post.pool.buffers@.len() == pre.pool.buffers@.len()
    &&& post.pool.buffers@[rec.index as int].raw == pre.pool.buffers@[rec.index as int].raw
    &&& post.pool.buffers@[rec.index as int].tags == (CommandBufferTags {
        chainable: pre.pool.buffers@[rec.index as int].tags.chainable,
        recording: false,
        pending: true,
    })
    &&& post.pool.buffers@[rec.index as int].state matches Some(s) && s.is_clear()
    &&& forall|j: int|
        0 <= j < pre.pool.buffers@.len() && j != rec.index ==> #[trigger] post.pool.buffers@[j]
            == pre.pool.buffers@[j]
}

/// A completion notice for slot `index`: its pending tag is cleared and
/// everything else is unchanged.
pub open spec fn complete_ok(pre: Queue, post: Queue, index: int) -> bool {
    &&& 0 <= index < pre.pool.buffers@.len()
    &&& post.qfi == pre.qfi
    &&& post.raw == pre.raw
    &&& post.pool.raw == pre.pool.raw
    &&& post.pool.buffers@.len() == pre.pool.buffers@.len()
    &&& post.pool.buffers@[index].raw == pre.pool.buffers@[index].raw
    &&& post.pool.buffers@[index].tags == (CommandBufferTags {
        chainable: pre.pool.buffers@[index].tags.chainable,
        recording: pre.pool.buffers@[index].tags.recording,
        pending: false,
    })
    &&& post.pool.buffers@[index].state == pre.pool.buffers@[index].state
    &&& forall|j: int|
        0 <= j < pre.pool.buffers@.len() && j != index ==> #[trigger] post.pool.buffers@[j]
            == pre.pool.buffers@[j]
}

/// An abandoned recording: the slot is back to idle with a fresh empty state,
/// the recorder's accumulated content is discarded, and everything else is
/// unchanged.
pub open spec fn release_ok(pre: Queue, post: Queue, rec: Recorder) -> bool {
    &&& rec.index < pre.pool.buffers@.len()
    &&& post.qfi == pre.qfi
    &&& post.raw == pre.raw
    &&& post.pool.raw == pre.pool.raw
    &&& post.pool.buffers@.len() == pre.pool.buffers@.len()
    &&& post.pool.buffers@[rec.index as int].raw == pre.pool.buffers@[rec.index as int].raw
    &&& post.pool.buffers@[rec.index as int].tags == (CommandBufferTags {
        chainable: pre.pool.buffers@[rec.index as int].tags.chainable,
        recording: false,
        pending: pre.pool.buffers@[rec.index as int].tags.pending,
    })
    &&& post.pool.buffers@[rec.index as int].state matches Some(s) && s.is_clear()
    &&& forall|j: int|
        0 <= j < pre.pool.buffers@.len() && j != rec.index ==> #[trigger] post.pool.buffers@[j]
            == pre.pool.buffers@[j]
}

impl Queue {
    /// The queue's invariant: its pool is well-formed.
    pub open spec fn wf(self) -> bool {
        self.pool.wf()
    }

    /// Finds the first queue family whose flags contain `required_flags` and
    /// which supports presenting whenever `supports_presenting` asks for it.
    /// Fails with [`Error::NoQueueFamily`] exactly when no family qualifies.
    pub fn pick_queue_family(
        families: &Vec<QueueFamily>,
        supports_presenting: bool,
        required_flags: u32,
    ) -> (r: Result<u32, Error>)
        requires
            families@.len() <= u32::MAX,
        ensures
            r matches Ok(i) ==> 0 <= i < families@.len() && family_qualifies(
                families@[i as int],
                supports_presenting,
                required_flags,
            ) && forall|j: int|
                0 <= j < i ==> !family_qualifies(
                    #[trigger] families@[j],
                    supports_presenting,
                    required_flags,
                ),
            r is Ok <==> exists|i: int|
                0 <= i < families@.len() && family_qualifies(
                    #[trigger] families@[i],
                    supports_presenting,
                    required_flags,
                ),
            r matches Err(e) ==> e == Error::NoQueueFamily,
    {
        let mut i: usize = 0;
        while i < families.len()
            invariant
                families@.len() <= u32::MAX,
                i <= families@.len(),
                forall|j: int|
                    0 <= j < i ==> !family_qualifies(
                        #[trigger] families@[j],
                        supports_presenting,
                        required_flags,
                    ),
            decreases families@.len() - i,
        {
            let f = families[i];
            let has_flags = f.flags & required_flags == required_flags;
            let presenting = !supports_presenting || f.surface_supported;
            if has_flags && presenting {
                return Ok(i as u32);
            }
            i = i + 1;
        }
        Err(Error::NoQueueFamily)
    }

    /// Creates the queue: selects the first graphics-capable family (that
    /// can present whenever presentation is requested) from the adapter's
    /// family table and pairs the given native queue handle with the given
    /// pool.  Fails with [`Error::NoQueueFamily`] exactly when no family
    /// qualifies.
    pub fn new(
        families: &Vec<QueueFamily>,
        supports_presenting: bool,
        raw_queue: u64,
        pool: Pool,
    ) -> (r: Result<Queue, Error>)
        requires
            families@.len() <= u32::MAX,
            pool.wf(),
        ensures
            r matches Ok(q) ==> q.wf() && q.raw == raw_queue && q.pool == pool
                && family_qualifies(
                families@[q.qfi as int],
                supports_presenting,
                QUEUE_FLAG_GRAPHICS,
            ) && 0 <= q.qfi < families@.len() && forall|j: int|
                0 <= j < q.qfi ==> !family_qualifies(
                    #[trigger] families@[j],
                    supports_presenting,
                    QUEUE_FLAG_GRAPHICS,
                ),
            r is Ok <==> exists|i: int|
                0 <= i < families@.len() && family_qualifies(
                    #[trigger] families@[i],
                    supports_presenting,
                    QUEUE_FLAG_GRAPHICS,
                ),
            r matches Err(e) ==> e == Error::NoQueueFamily,
    {
        match Self::pick_queue_family(families, supports_presenting, QUEUE_FLAG_GRAPHICS) {
            Ok(qfi) => Ok(Queue { qfi, raw: raw_queue, pool }),
            Err(e) => Err(e),
        }
    }

    /// Acquires a free command recorder.
    ///
    /// The scan and the claim happen inside this one exclusive call: the
    /// first eligible buffer is tagged recording (and chainable as
    /// requested), its state is taken, and a recorder owning that state is
    /// returned.  Re-acquiring a chainable buffer that is already
    /// mid-recording starts a second, empty session on the same native
    /// buffer.  Fails with [`Error::PoolExhausted`] exactly when no buffer
    /// is eligible, leaving the queue unchanged.
    pub fn acquire(&mut self, chainable: bool) -> (r: Result<Recorder, Error>)
        requires
            old(self).wf(),
        ensures
            final(self).wf(),
            r matches Ok(rec) ==> acquire_ok(*old(self), *final(self), rec, chainable),
            r is Ok <==> old(self).pool.has_eligible(),
            r matches Err(e) ==> e == Error::PoolExhausted && *final(self) == *old(self),
    {
        let index = match self.pool.free() {
            Ok(i) => i,
            Err(e) => {
                return Err(e);
            },
        };
        let slot = &mut self.pool.buffers[index];
        slot.tags.recording = true;
        slot.tags.chainable = chainable;
        let mut taken: Option<State> = None;
        core::mem::swap(&mut slot.state, &mut taken);
        let raw = slot.raw;
        let state = match taken {
            Some(s) => s,
            None => State::new(),
        };
        Ok(Recorder { index, state, raw })
    }

    /// Submits a recording: drains the recorder into its replay plan and
    /// marks the buffer pending.
    ///
    /// The returned plan lists, in order, every native recording call the
    /// submission must perform — the recorded commands in insertion order
    /// with each barrier at its recorded position.  The caller replays the
    /// plan onto the native buffer inside a begin/end pair, submits it to the
    /// native queue, and reports [`Queue::complete`] once the device is done
    /// with it; until then the slot stays pending and cannot be re-acquired.
    pub fn submit(&mut self, recorder: Recorder) -> (r: (Submission, Vec<ReplayStep>))
        requires
            old(self).wf(),
            recorder.index < POOL_CAPACITY,
        ensures
            final(self).wf(),
            submit_ok(*old(self), *final(self), recorder, r.0, r.1@),
    {
        let Recorder { index, state, raw: _ } = recorder;
        let steps = state.finish();
        let slot = &mut self.pool.buffers[index];
        slot.tags.recording = false;
        slot.tags.pending = true;
        slot.state = Some(State::new());
        (Submission { index }, steps)
    }

    /// Reports that the device has finished executing a submission: clears
    /// the slot's pending tag, making it available to later acquisitions.
    pub fn complete(&mut self, submission: &Submission)
        requires
            old(self).wf(),
            submission.index < POOL_CAPACITY,
        ensures
            final(self).wf(),
            complete_ok(*old(self), *final(self), submission.index as int),
    {
        let slot = &mut self.pool.buffers[submission.index];
        slot.tags.pending = false;
    }

    /// Polls a submission: is its buffer still awaiting execution?  True
    /// from the submission until [`Queue::complete`] is called for it.
    pub fn is_pending(&self, submission: &Submission) -> (r: bool)
        requires
            self.wf(),
            submission.index < POOL_CAPACITY,
        ensures
            r == self.pool.buffers@[submission.index as int].tags.pending,
    {
        self.pool.buffers[submission.index].tags.pending
    }

    /// Abandons an unsubmitted recording: discards its accumulated commands
    /// and returns its buffer to idle with a fresh empty state, so the slot
    /// cannot be starved by a recorder that is never submitted.
    pub fn release(&mut self, recorder: Recorder)
        requires
            old(self).wf(),
            recorder.index < POOL_CAPACITY,
        ensures
            final(self).wf(),
            release_ok(*old(self), *final(self), recorder),
    {
        let Recorder { index, state: _, raw: _ } = recorder;
        let slot = &mut self.pool.buffers[index];
        slot.tags.recording = false;
        slot.state = Some(State::new());
    }
}

} // verus!
