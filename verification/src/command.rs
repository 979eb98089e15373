//! The closed set of recordable operations and synchronization barriers.
//!
//! Every variant carries exactly the plain-value parameters needed to replay
//! it against a native command buffer later; native object handles travel as
//! `u64` values and enumerations as the native integer codes.  Nothing here
//! touches the GPU: a recorded command is pure data until replay time.

use vstd::prelude::*;

verus! {

/// A region of a buffer-to-buffer copy.
#[derive(Clone, Copy, Debug, PartialEq, Eq, Structural)]
pub struct BufferCopy {
    pub src_offset: u64,
    pub dst_offset: u64,
    pub size: u64,
}

/// The subresource layers addressed by an image copy.
#[derive(Clone, Copy, Debug, PartialEq, Eq, Structural)]
pub struct ImageSubresourceLayers {
    pub aspect_mask: u32,
    pub mip_level: u32,
    pub base_array_layer: u32,
    pub layer_count: u32,
}

/// A texel offset into an image.
#[derive(Clone, Copy, Debug, PartialEq, Eq, Structural)]
pub struct Offset3d {
    pub x: i32,
    pub y: i32,
    pub z: i32,
}

/// A texel extent of an image region.
#[derive(Clone, Copy, Debug, PartialEq, Eq, Structural)]
pub struct Extent3d {
    pub width: u32,
    pub height: u32,
    pub depth: u32,
}

/// A region of an image-to-buffer copy.
#[derive(Clone, Copy, Debug, PartialEq, Eq, Structural)]
pub struct BufferImageCopy {
    pub buffer_offset: u64,
    pub buffer_row_length: u32,
    pub buffer_image_height: u32,
    pub image_subresource: ImageSubresourceLayers,
    pub image_offset: Offset3d,
    pub image_extent: Extent3d,
}

/// One recordable GPU operation, stored as data for later replay.
///
/// The variant set is closed: replay dispatches each variant to exactly one
/// native recording call with the captured parameters.
#[derive(Clone, Debug, PartialEq, Eq)]
#[allow(inconsistent_fields)]
pub enum Command {
    BindIndexBuffer { buffer: u64, offset: u64, index_type: i32 },
    BindVertexBuffers {
        first_binding: u32,
        binding_count: u32,
        buffers: Vec<u64>,
        offsets: Vec<u64>,
    },
    CopyBuffer { src: u64, dst: u64, regions: Vec<BufferCopy> },
    CopyImageToBuffer { src: u64, dst: u64, layout: i32, regions: Vec<BufferImageCopy> },
    FillBuffer { buffer: u64, offset: u64, size: u64, data: u32 },
    UpdateBuffer { buffer: u64, offset: u64, size: u64, data: Vec<u8> },
}

/// A global memory barrier entry.
#[derive(Clone, Copy, Debug, PartialEq, Eq, Structural)]
pub struct MemoryBarrier {
    pub src_access_mask: u32,
    pub dst_access_mask: u32,
}

/// A buffer-memory barrier entry.
#[derive(Clone, Copy, Debug, PartialEq, Eq, Structural)]
pub struct BufferMemoryBarrier {
    pub src_access_mask: u32,
    pub dst_access_mask: u32,
    pub src_queue_family_index: u32,
    pub dst_queue_family_index: u32,
    pub buffer: u64,
    pub offset: u64,
    pub size: u64,
}

/// The subresource range addressed by an image-memory barrier.
#[derive(Clone, Copy, Debug, PartialEq, Eq, Structural)]
pub struct ImageSubresourceRange {
    pub aspect_mask: u32,
    pub base_mip_level: u32,
    pub level_count: u32,
    pub base_array_layer: u32,
    pub layer_count: u32,
}

/// An image-memory barrier entry.
#[derive(Clone, Copy, Debug, PartialEq, Eq, Structural)]
pub struct ImageMemoryBarrier {
    pub src_access_mask: u32,
    pub dst_access_mask: u32,
    pub old_layout: i32,
    pub new_layout: i32,
    pub src_queue_family_index: u32,
    pub dst_queue_family_index: u32,
    pub image: u64,
    pub subresource_range: ImageSubresourceRange,
}

/// One pipeline synchronization point, positioned relative to the command
/// sequence it was recorded into.
///
/// `command_index_after` is the number of commands that had been recorded when
/// the barrier was appended: at replay time the barrier is inserted after
/// exactly that many commands, so a barrier recorded between command `k - 1`
/// and command `k` replays between them.
#[derive(Clone, Debug, PartialEq, Eq)]
pub struct Barrier {
    pub command_index_after: usize,
    pub src_stage_mask: u32,
    pub dst_stage_mask: u32,
    pub dependency_flags: u32,
    pub memory_barriers: Vec<MemoryBarrier>,
    pub buffer_memory_barriers: Vec<BufferMemoryBarrier>,
    pub image_memory_barriers: Vec<ImageMemoryBarrier>,
}

/// One entry of a replay plan: either a recorded command or a barrier to be
/// inserted at its position.
#[derive(Clone, Debug, PartialEq, Eq)]
pub enum ReplayStep {
    Command(Command),
    Barrier(Barrier),
}

} // verus!
