//! A fixed-capacity pool of pre-allocated native command buffers.
//!
//! The pool owns one native command-pool handle and a fixed number of
//! command-buffer records.  Each record carries a tag set describing its
//! lifecycle (chainable / recording / pending) and an optional recording
//! state; the state is absent exactly while a recorder has taken it.
//! `free` scans the records in order and reports the first one that is
//! eligible for acquisition; exhaustion is a typed, recoverable error.

use vstd::prelude::*;

use crate::error::Error;
use crate::state::State;

verus! {

/// Number of command buffers pre-allocated per pool.  The pool never grows:
/// bounded command-buffer memory is part of the design.
pub const POOL_CAPACITY: usize = 32;

/// The lifecycle tags of one command buffer.
#[derive(Clone, Copy, Debug, PartialEq, Eq, Structural)]
pub struct CommandBufferTags {
    /// May further acquisitions append to this buffer while it records?
    pub chainable: bool,
    /// Is the buffer currently recording?
    pub recording: bool,
    /// Is the buffer submitted and awaiting execution?
    pub pending: bool,
}

/// Whether a buffer with tags `t` may be handed out by an acquisition: either
/// it is mid-recording and explicitly allows chaining, or it is fully idle.
/// A pending buffer is never eligible.
pub open spec fn eligible(t: CommandBufferTags) -> bool {
    (t.chainable && t.recording && !t.pending) || (!t.recording && !t.pending)
}

/// One pre-allocated native command buffer together with its lifecycle tags
/// and its (takeable) recording state.
#[derive(Debug)]
pub struct CommandBuffer {
    /// The native command-buffer handle.
    pub raw: u64,
    /// The lifecycle tags.
    pub tags: CommandBufferTags,
    /// The recording state; `None` exactly while a recorder holds it.
    pub state: Option<State>,
}

impl CommandBuffer {
    /// The record's invariant: a buffer that is not recording always holds its
    /// state (only an acquisition takes it, and acquiring marks the buffer as
    /// recording), and a stored state is always drained and well-formed.
    pub open spec fn wf(self) -> bool {
        &&& !self.tags.recording ==> self.state is Some
        &&& self.state matches Some(s) ==> s.is_clear() && s.wf()
    }
}

/// A fixed-capacity collection of command buffers sharing one native
/// command-pool handle.
#[derive(Debug)]
pub struct Pool {
    /// The native command-pool handle the buffers were allocated from.
    pub raw: u64,
    /// The pre-allocated command-buffer records.
    pub buffers: Vec<CommandBuffer>,
}

/// A freshly pooled record: the given native handle, tags `{chainable}`, and
/// an empty recording state.
pub open spec fn fresh_buffer(b: CommandBuffer, raw: u64) -> bool {
    &&& b.raw == raw
    &&& b.tags == (CommandBufferTags { chainable: true, recording: false, pending: false })
    &&& b.state matches Some(s) && s.is_clear() && s.wf()
}

impl Pool {
    /// The pool's invariant: exactly `POOL_CAPACITY` records, each
    /// well-formed.
    pub open spec fn wf(self) -> bool {
        &&& self.buffers@.len() == POOL_CAPACITY
        &&& forall|i: int|
            0 <= i < self.buffers@.len() ==> (#[trigger] self.buffers@[i]).wf()
    }

    /// Does any record satisfy the eligibility predicate?
    pub open spec fn has_eligible(self) -> bool {
        exists|i: int|
            0 <= i < self.buffers@.len() && eligible(#[trigger] self.buffers@[i].tags)
    }

    /// `i` is the first record satisfying the eligibility predicate.
    pub open spec fn first_eligible_is(self, i: int) -> bool {
        &&& 0 <= i < self.buffers@.len()
        &&& eligible(self.buffers@[i].tags)
        &&& forall|j: int| 0 <= j < i ==> !eligible(#[trigger] self.buffers@[j].tags)
    }

    /// Wraps a batch of pre-allocated native command buffers into a pool.
    /// Every record starts chainable, idle, and with an empty state.
    pub fn new(raw: u64, buffer_raws: Vec<u64>) -> (p: Pool)
        requires
            buffer_raws@.len() == POOL_CAPACITY,
        ensures
            p.wf(),
            p.raw == raw,
            forall|i: int|
                0 <= i < POOL_CAPACITY ==> fresh_buffer(#[trigger] p.buffers@[i], buffer_raws@[i]),
    {
        let mut buffers: Vec<CommandBuffer> = Vec::new();
        let mut k: usize = 0;
        while k < buffer_raws.len()
            invariant
                buffer_raws@.len() == POOL_CAPACITY,
                k <= POOL_CAPACITY,
                buffers@.len() == k,
                forall|i: int|
                    0 <= i < k ==> fresh_buffer(#[trigger] buffers@[i], buffer_raws@[i]),
            decreases buffer_raws@.len() - k,
        {
            buffers.push(
                CommandBuffer {
                    raw: buffer_raws[k],
                    tags: CommandBufferTags { chainable: true, recording: false, pending: false },
                    state: Some(State::new()),
                },
            );
            k = k + 1;
        }
        Pool { raw, buffers }
    }

    /// Scans the records in order and returns the index of the first eligible
    /// one; reports exhaustion when none is.  The scan never blocks.
    pub fn free(&self) -> (r: Result<usize, Error>)
        ensures
            r matches Ok(i) ==> self.first_eligible_is(i as int),
            r is Ok <==> self.has_eligible(),
            r matches Err(e) ==> e == Error::PoolExhausted,
    {
        let mut i: usize = 0;
        while i < self.buffers.len()
            invariant
                i <= self.buffers@.len(),
                forall|j: int| 0 <= j < i ==> !eligible(#[trigger] self.buffers@[j].tags),
            decreases self.buffers@.len() - i,
        {
            let t = self.buffers[i].tags;
            if (t.chainable && t.recording && !t.pending) || (!t.recording && !t.pending) {
                return Ok(i);
            }
            i = i + 1;
        }
        Err(Error::PoolExhausted)
    }
}

} // verus!
