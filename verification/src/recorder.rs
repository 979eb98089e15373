//! The caller-facing handle for building a command sequence.
//!
//! A `Recorder` owns one acquired command buffer's recording state.  Every
//! append operation only stores a [`Command`] or [`Barrier`] as data; no
//! native call happens until the recorder is submitted.  Recording is
//! virtual: it can be rolled back for free by releasing the recorder, and
//! replayed later onto the native buffer it was issued from.

use vstd::prelude::*;

use crate::command::{
    Barrier, BufferCopy, BufferImageCopy, BufferMemoryBarrier, Command, ImageMemoryBarrier,
    MemoryBarrier,
};
use crate::state::State;
use crate::pool::POOL_CAPACITY;

verus! {

/// An in-progress, single-owner recording session for one acquired command
/// buffer.
#[derive(Debug)]
pub struct Recorder {
    /// The pool slot the session was issued from.
    pub index: usize,
    /// The accumulated recording state.
    pub state: State,
    /// The native handle of the underlying command buffer.
    pub raw: u64,
}

/// A receipt for a submitted recording: which pool slot carried it.  The slot
/// stays pending until the submission is reported complete.
#[derive(Clone, Copy, Debug, PartialEq, Eq, Structural)]
pub struct Submission {
    /// The pool slot the submitted buffer occupies.
    pub index: usize,
}

impl Recorder {
    /// A recorder is well-formed when its slot index is within the pool and
    /// its state obeys the recording discipline.
    pub open spec fn wf(self) -> bool {
        &&& self.index < POOL_CAPACITY
        &&& self.state.wf()
    }

    /// Everything an append preserves: the slot, the native handle, and the
    /// barrier sequence.
    pub open spec fn appended(self, post: Recorder, c: Command) -> bool {
        &&& post.state.commands@ == self.state.commands@.push(c)
        &&& post.state.barriers@ == self.state.barriers@
        &&& post.index == self.index
        &&& post.raw == self.raw
        &&& self.state.wf() ==> post.state.wf()
    }

    /// Records an index-buffer bind.
    pub fn bind_index_buffer(&mut self, buffer: u64, offset: u64, index_type: i32)
        ensures
            old(self).appended(
                *final(self),
                (Command::BindIndexBuffer { buffer, offset, index_type }),
            ),
    {
        self.state.commands.push(Command::BindIndexBuffer { buffer, offset, index_type });
    }

    /// Records a vertex-buffer bind.
    pub fn bind_vertex_buffers(
        &mut self,
        first_binding: u32,
        binding_count: u32,
        buffers: Vec<u64>,
        offsets: Vec<u64>,
    )
        ensures
            old(self).appended(
                *final(self),
                (Command::BindVertexBuffers { first_binding, binding_count, buffers, offsets }),
            ),
    {
        self.state.commands.push(
            Command::BindVertexBuffers { first_binding, binding_count, buffers, offsets },
        );
    }

    /// Records a buffer-to-buffer copy.
    pub fn copy_buffer(&mut self, src: u64, dst: u64, regions: Vec<BufferCopy>)
        ensures
            old(self).appended(*final(self), (Command::CopyBuffer { src, dst, regions })),
    {
        self.state.commands.push(Command::CopyBuffer { src, dst, regions });
    }

    /// Records an image-to-buffer copy.
    pub fn copy_image_to_buffer(
        &mut self,
        buffer: u64,
        image: u64,
        layout: i32,
        regions: Vec<BufferImageCopy>,
    )
        ensures
            old(self).appended(
                *final(self),
                (Command::CopyImageToBuffer { src: image, dst: buffer, layout, regions }),
            ),
    {
        self.state.commands.push(
            Command::CopyImageToBuffer { src: image, dst: buffer, layout, regions },
        );
    }

    /// Records a fill of a buffer range with zero.
    pub fn cmd_clear_buffer(&mut self, buffer: u64, offset: u64, size: u64)
        ensures
            old(self).appended(
                *final(self),
                (Command::FillBuffer { buffer, offset, size, data: 0 }),
            ),
    {
        self.state.commands.push(Command::FillBuffer { buffer, offset, size, data: 0 });
    }

    /// Records an update of a buffer range with bytes stored inline in the
    /// command.
    pub fn cmd_update_buffer(&mut self, buffer: u64, offset: u64, size: u64, data: Vec<u8>)
        ensures
            old(self).appended(
                *final(self),
                (Command::UpdateBuffer { buffer, offset, size, data }),
            ),
    {
        self.state.commands.push(Command::UpdateBuffer { buffer, offset, size, data });
    }

    /// Records a pipeline barrier at the current position: it will replay
    /// after every command recorded so far and before any recorded later.
    pub fn cmd_pipeline_barrier(
        &mut self,
        src_stage_mask: u32,
        dst_stage_mask: u32,
        dependency_flags: u32,
        memory_barriers: Vec<MemoryBarrier>,
        buffer_memory_barriers: Vec<BufferMemoryBarrier>,
        image_memory_barriers: Vec<ImageMemoryBarrier>,
    )
        ensures
            final(self).state.barriers@ == old(self).state.barriers@.push(
                (Barrier {
                    command_index_after: old(self).state.commands@.len() as usize,
                    src_stage_mask,
                    dst_stage_mask,
                    dependency_flags,
                    memory_barriers,
                    buffer_memory_barriers,
                    image_memory_barriers,
                }),
            ),
            final(self).state.commands@ == old(self).state.commands@,
            final(self).index == old(self).index,
            final(self).raw == old(self).raw,
            old(self).state.wf() ==> final(self).state.wf(),
    {
        let command_index_after = self.state.commands.len();
        self.state.barriers.push(
            Barrier {
                command_index_after,
                src_stage_mask,
                dst_stage_mask,
                dependency_flags,
                memory_barriers,
                buffer_memory_barriers,
                image_memory_barriers,
            },
        );
    }
}

} // verus!
