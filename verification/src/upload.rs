//! Moving data from the host into memory that only the device can reach.
//!
//! The data goes through a staging buffer that the host can write and the
//! device can read. This module chooses memory types, decides how an image
//! changes layout, and lays out the steps of an upload; the caller performs
//! them.

use vstd::prelude::*;
use vstd::pervasive::unreached;
use crate::flags::{
    flags_contain, memory_flags_contain, MEMORY_PROPERTY_DEVICE_LOCAL_BIT,
    MEMORY_PROPERTY_HOST_COHERENT_BIT, MEMORY_PROPERTY_HOST_VISIBLE_BIT,
};
use crate::result::{error, Error};
use crate::surface::FORMAT_R8G8B8A8_SRGB;

verus! {

/// Message of the error for a resource that no memory type can back.
pub const NO_MEMORY_TYPE: &'static str = "Failed to find memory type";

/// Message of the error for a change of image layout that is not provided for.
pub const UNSUPPORTED_TRANSITION: &'static str = "Unsupported layout transition";

/// Most memory types a device can report.
pub const MAX_MEMORY_TYPES: usize = 32;

/// Raw code of the layout of an image whose contents do not matter.
pub const IMAGE_LAYOUT_UNDEFINED: i32 = 0;

/// Raw code of the layout of an image that shaders read from.
pub const IMAGE_LAYOUT_SHADER_READ_ONLY_OPTIMAL: i32 = 5;

/// Raw code of the layout of an image that is being copied into.
pub const IMAGE_LAYOUT_TRANSFER_DST_OPTIMAL: i32 = 7;

/// Access bit of a write by a copy.
pub const ACCESS_TRANSFER_WRITE_BIT: u32 = 0x1000;

/// Pipeline stage bit of the very start of the pipeline.
pub const PIPELINE_STAGE_TOP_OF_PIPE_BIT: u32 = 0x1;

/// Pipeline stage bit of the fragment shader.
pub const PIPELINE_STAGE_FRAGMENT_SHADER_BIT: u32 = 0x80;

/// Pipeline stage bit of copies.
pub const PIPELINE_STAGE_TRANSFER_BIT: u32 = 0x1000;

/// Queue family index that says ownership does not change.
pub const QUEUE_FAMILY_IGNORED: u32 = 0xFFFF_FFFF;

/// Usage bit of a buffer that is copied from.
pub const BUFFER_USAGE_TRANSFER_SRC_BIT: u32 = 0x1;

/// Usage bit of a buffer that is copied into.
pub const BUFFER_USAGE_TRANSFER_DST_BIT: u32 = 0x2;

/// Usage bit of a buffer that holds uniform data.
pub const BUFFER_USAGE_UNIFORM_BUFFER_BIT: u32 = 0x10;

/// Usage bit of a buffer that holds indices.
pub const BUFFER_USAGE_INDEX_BUFFER_BIT: u32 = 0x40;

/// Usage bit of a buffer that holds vertices.
pub const BUFFER_USAGE_VERTEX_BUFFER_BIT: u32 = 0x80;

/// Usage bit of an image that is copied into.
pub const IMAGE_USAGE_TRANSFER_DST_BIT: u32 = 0x2;

/// Usage bit of an image that shaders sample.
pub const IMAGE_USAGE_SAMPLED_BIT: u32 = 0x4;

/// One kind of memory a device offers.
#[derive(Clone, Copy, Debug, PartialEq, Eq, Structural)]
pub struct MemoryType {
    /// What the memory can do, as raw flag bits.
    pub property_flags: u32,
    /// The heap the memory is taken from.
    pub heap_index: u32,
}

/// Memory type `i` can back a resource: its bit is set in the resource's
/// `type_filter` and it has every property asked for.
pub open spec fn memory_type_fits(
    memory_types: Seq<MemoryType>,
    i: int,
    type_filter: u32,
    properties: u32,
) -> bool {
    &&& type_filter & (1u32 << (i as u32)) != 0
    &&& flags_contain(memory_types[i].property_flags, properties)
}

/// Finds the memory type for a resource: the first that the resource accepts
/// and that has all of `properties`. Fails if there is none.
pub fn find_memory_type(memory_types: &[MemoryType], type_filter: u32, properties: u32) -> (found:
    Result<u32, Error>)
    requires
        memory_types@.len() <= MAX_MEMORY_TYPES,
    ensures
        match found {
            Ok(i) => {
                &&& i < memory_types@.len()
                &&& memory_type_fits(memory_types@, i as int, type_filter, properties)
                &&& forall|j: int|
                    0 <= j < i ==> !memory_type_fits(memory_types@, j, type_filter, properties)
            },
            Err(e) => {
                &&& e@ == NO_MEMORY_TYPE@
                &&& forall|j: int|
                    0 <= j < memory_types@.len() ==> !memory_type_fits(
                        memory_types@,
                        j,
                        type_filter,
                        properties,
                    )
            },
        },
{
    let mut i: usize = 0;
    while i < memory_types.len()
        invariant
            i <= memory_types@.len() <= MAX_MEMORY_TYPES,
            forall|j: int|
                0 <= j < i ==> !memory_type_fits(memory_types@, j, type_filter, properties),
        decreases memory_types@.len() - i,
    {
        let bit: u32 = 1u32 << (i as u32);
        if type_filter & bit != 0 && memory_flags_contain(
            memory_types[i].property_flags,
            properties,
        ) {
            return Ok(i as u32);
        }
        i += 1;
    }
    error(NO_MEMORY_TYPE)
}

/// The barrier that takes an image from one layout to another.
#[derive(Clone, Copy, Debug, PartialEq, Eq, Structural)]
pub struct LayoutTransition {
    pub old_layout: i32,
    pub new_layout: i32,
    pub src_queue_family_index: u32,
    pub dst_queue_family_index: u32,
    /// Accesses that must be over before the change.
    pub src_access_mask: u32,
    /// Accesses that must wait for the change.
    pub dst_access_mask: u32,
    /// Pipeline stages that must be over before the change.
    pub src_stage_mask: u32,
    /// Pipeline stages that must wait for the change.
    pub dst_stage_mask: u32,
}

/// The change takes a fresh image to where it can be copied into.
pub open spec fn is_upload_preparation(old_layout: i32, new_layout: i32) -> bool {
    old_layout == IMAGE_LAYOUT_UNDEFINED && new_layout == IMAGE_LAYOUT_TRANSFER_DST_OPTIMAL
}

/// The change takes an image that was copied into to where shaders read it.
pub open spec fn is_upload_completion(old_layout: i32, new_layout: i32) -> bool {
    old_layout == IMAGE_LAYOUT_TRANSFER_DST_OPTIMAL && new_layout
        == IMAGE_LAYOUT_SHADER_READ_ONLY_OPTIMAL
}

/// The barrier for one of the two supported changes of layout.
pub open spec fn layout_transition(old_layout: i32, new_layout: i32) -> LayoutTransition {
    if is_upload_preparation(old_layout, new_layout) {
        LayoutTransition {
            old_layout,
            new_layout,
            src_queue_family_index: QUEUE_FAMILY_IGNORED,
            dst_queue_family_index: QUEUE_FAMILY_IGNORED,
            src_access_mask: 0,
            dst_access_mask: ACCESS_TRANSFER_WRITE_BIT,
            src_stage_mask: PIPELINE_STAGE_TOP_OF_PIPE_BIT,
            dst_stage_mask: PIPELINE_STAGE_TRANSFER_BIT,
        }
    } else {
        LayoutTransition {
            old_layout,
            new_layout,
            src_queue_family_index: QUEUE_FAMILY_IGNORED,
            dst_queue_family_index: QUEUE_FAMILY_IGNORED,
            src_access_mask: 0,
            dst_access_mask: 0,
            src_stage_mask: PIPELINE_STAGE_TRANSFER_BIT,
            dst_stage_mask: PIPELINE_STAGE_FRAGMENT_SHADER_BIT,
        }
    }
}

/// Decides the barrier for a change of image layout. Only the two changes
/// that a texture upload needs are provided for; any other is refused.
pub fn plan_layout_transition(old_layout: i32, new_layout: i32) -> (planned: Result<
    LayoutTransition,
    Error,
>)
    ensures
        match planned {
            Ok(barrier) => {
                &&& is_upload_preparation(old_layout, new_layout) || is_upload_completion(
                    old_layout,
                    new_layout,
                )
                &&& barrier == layout_transition(old_layout, new_layout)
            },
            Err(e) => {
                &&& e@ == UNSUPPORTED_TRANSITION@
                &&& !is_upload_preparation(old_layout, new_layout)
                &&& !is_upload_completion(old_layout, new_layout)
            },
        },
{
    if old_layout == IMAGE_LAYOUT_UNDEFINED && new_layout == IMAGE_LAYOUT_TRANSFER_DST_OPTIMAL {
        Ok(
            LayoutTransition {
                old_layout,
                new_layout,
                src_queue_family_index: QUEUE_FAMILY_IGNORED,
                dst_queue_family_index: QUEUE_FAMILY_IGNORED,
                src_access_mask: 0,
                dst_access_mask: ACCESS_TRANSFER_WRITE_BIT,
                src_stage_mask: PIPELINE_STAGE_TOP_OF_PIPE_BIT,
                dst_stage_mask: PIPELINE_STAGE_TRANSFER_BIT,
            },
        )
    } else if old_layout == IMAGE_LAYOUT_TRANSFER_DST_OPTIMAL && new_layout
        == IMAGE_LAYOUT_SHADER_READ_ONLY_OPTIMAL {
        Ok(
            LayoutTransition {
                old_layout,
                new_layout,
                src_queue_family_index: QUEUE_FAMILY_IGNORED,
                dst_queue_family_index: QUEUE_FAMILY_IGNORED,
                src_access_mask: 0,
                dst_access_mask: 0,
                src_stage_mask: PIPELINE_STAGE_TRANSFER_BIT,
                dst_stage_mask: PIPELINE_STAGE_FRAGMENT_SHADER_BIT,
            },
        )
    } else {
        error(UNSUPPORTED_TRANSITION)
    }
}

/// One step of an upload.
#[derive(Clone, Copy, Debug, PartialEq, Eq, Structural)]
pub enum UploadStep {
    /// Create the staging buffer and bind memory of the given properties to it.
    CreateStagingBuffer { size: u64, usage: u32, memory_properties: u32 },
    /// Map the staging memory, copy the payload into it, unmap it.
    FillStagingBuffer { size: u64 },
    /// Create the buffer the data ends up in and bind memory to it.
    CreateBuffer { size: u64, usage: u32, memory_properties: u32 },
    /// Create the image the data ends up in and bind memory to it.
    CreateImage { width: u32, height: u32, format: i32, usage: u32, memory_properties: u32 },
    /// Allocate a command buffer and begin recording it for a single use.
    BeginCommands,
    /// Record a copy of `size` bytes from the staging buffer to the buffer.
    CopyBuffer { size: u64 },
    /// Record a copy from the staging buffer to the whole of the image.
    CopyBufferToImage { width: u32, height: u32 },
    /// Record a barrier that changes the image's layout.
    ChangeLayout { barrier: LayoutTransition },
    /// End the recording and submit the command buffer.
    SubmitCommands,
    /// Wait for the queue to finish all work.
    WaitQueueIdle,
    /// Free the command buffer.
    FreeCommands,
    /// Destroy the staging buffer.
    DestroyStagingBuffer,
    /// Free the staging buffer's memory.
    FreeStagingMemory,
}

/// The steps that record `command` alone into a command buffer, run it and
/// wait for it to finish.
pub open spec fn one_shot(command: UploadStep) -> Seq<UploadStep> {
    seq![
        UploadStep::BeginCommands,
        command,
        UploadStep::SubmitCommands,
        UploadStep::WaitQueueIdle,
        UploadStep::FreeCommands,
    ]
}

/// The memory a staging buffer needs: mappable by the host, and coherent so
/// that no flush is called for.
pub open spec fn staging_memory_properties() -> u32 {
    MEMORY_PROPERTY_HOST_VISIBLE_BIT | MEMORY_PROPERTY_HOST_COHERENT_BIT
}

/// The steps that open every staged upload: the staging buffer is made to the
/// size of the payload and filled.
pub open spec fn staging_steps(size: u64) -> Seq<UploadStep> {
    seq![
        UploadStep::CreateStagingBuffer {
            size,
            usage: BUFFER_USAGE_TRANSFER_SRC_BIT,
            memory_properties: staging_memory_properties(),
        },
        UploadStep::FillStagingBuffer { size },
    ]
}

/// The steps that close every staged upload: the staging buffer goes first,
/// its memory after it.
pub open spec fn release_steps() -> Seq<UploadStep> {
    seq![UploadStep::DestroyStagingBuffer, UploadStep::FreeStagingMemory]
}

/// The steps that upload `size` bytes into a new device-local buffer with
/// the given `usage`.
pub open spec fn buffer_upload(size: u64, usage: u32) -> Seq<UploadStep> {
    staging_steps(size) + seq![
        UploadStep::CreateBuffer {
            size,
            usage: BUFFER_USAGE_TRANSFER_DST_BIT | usage,
            memory_properties: MEMORY_PROPERTY_DEVICE_LOCAL_BIT,
        },
    ] + one_shot(UploadStep::CopyBuffer { size }) + release_steps()
}

/// The steps that upload `size` bytes of pixels into a new device-local
/// image of `width` by `height` that shaders can sample.
pub open spec fn texture_upload(width: u32, height: u32, size: u64) -> Seq<UploadStep> {
    staging_steps(size) + seq![
        UploadStep::CreateImage {
            width,
            height,
            format: FORMAT_R8G8B8A8_SRGB,
            usage: IMAGE_USAGE_TRANSFER_DST_BIT | IMAGE_USAGE_SAMPLED_BIT,
            memory_properties: MEMORY_PROPERTY_DEVICE_LOCAL_BIT,
        },
    ] + one_shot(
        UploadStep::ChangeLayout {
            barrier: layout_transition(IMAGE_LAYOUT_UNDEFINED, IMAGE_LAYOUT_TRANSFER_DST_OPTIMAL),
        },
    ) + one_shot(UploadStep::CopyBufferToImage { width, height }) + one_shot(
        UploadStep::ChangeLayout {
            barrier: layout_transition(
                IMAGE_LAYOUT_TRANSFER_DST_OPTIMAL,
                IMAGE_LAYOUT_SHADER_READ_ONLY_OPTIMAL,
            ),
        },
    ) + release_steps()
}

fn push_staging(plan: &mut Vec<UploadStep>, size: u64)
    ensures
        final(plan)@ == old(plan)@ + staging_steps(size),
{
    plan.push(
        UploadStep::CreateStagingBuffer {
            size,
            usage: BUFFER_USAGE_TRANSFER_SRC_BIT,
            memory_properties: MEMORY_PROPERTY_HOST_VISIBLE_BIT | MEMORY_PROPERTY_HOST_COHERENT_BIT,
        },
    );
    plan.push(UploadStep::FillStagingBuffer { size });
}

fn push_one_shot(plan: &mut Vec<UploadStep>, command: UploadStep)
    ensures
        final(plan)@ == old(plan)@ + one_shot(command),
{
    plan.push(UploadStep::BeginCommands);
    plan.push(command);
    plan.push(UploadStep::SubmitCommands);
    plan.push(UploadStep::WaitQueueIdle);
    plan.push(UploadStep::FreeCommands);
}

fn push_release(plan: &mut Vec<UploadStep>)
    ensures
        final(plan)@ == old(plan)@ + release_steps(),
{
    plan.push(UploadStep::DestroyStagingBuffer);
    plan.push(UploadStep::FreeStagingMemory);
}

/// Lays out the upload of `size` bytes into a new device-local buffer with
/// the given `usage`, such as a vertex or an index buffer.
pub fn plan_buffer_upload(size: u64, usage: u32) -> (plan: Vec<UploadStep>)
    ensures
        plan@ == buffer_upload(size, usage),
{
    let mut plan: Vec<UploadStep> = Vec::new();
    push_staging(&mut plan, size);
    plan.push(
        UploadStep::CreateBuffer {
            size,
            usage: BUFFER_USAGE_TRANSFER_DST_BIT | usage,
            memory_properties: MEMORY_PROPERTY_DEVICE_LOCAL_BIT,
        },
    );
    push_one_shot(&mut plan, UploadStep::CopyBuffer { size });
    push_release(&mut plan);
    plan
}

/// Lays out the upload of `size` bytes of pixels into a new device-local
/// image of `width` by `height`, left in the layout that shaders read.
pub fn plan_texture_upload(width: u32, height: u32, size: u64) -> (plan: Vec<UploadStep>)
    ensures
        plan@ == texture_upload(width, height, size),
{
    let mut plan: Vec<UploadStep> = Vec::new();
    push_staging(&mut plan, size);
    plan.push(
        UploadStep::CreateImage {
            width,
            height,
            format: FORMAT_R8G8B8A8_SRGB,
            usage: IMAGE_USAGE_TRANSFER_DST_BIT | IMAGE_USAGE_SAMPLED_BIT,
            memory_properties: MEMORY_PROPERTY_DEVICE_LOCAL_BIT,
        },
    );
    let prepare = match plan_layout_transition(
        IMAGE_LAYOUT_UNDEFINED,
        IMAGE_LAYOUT_TRANSFER_DST_OPTIMAL,
    ) {
        Ok(barrier) => barrier,
        Err(_) => unreached(),
    };
    push_one_shot(&mut plan, UploadStep::ChangeLayout { barrier: prepare });
    push_one_shot(&mut plan, UploadStep::CopyBufferToImage { width, height });
    let complete = match plan_layout_transition(
        IMAGE_LAYOUT_TRANSFER_DST_OPTIMAL,
        IMAGE_LAYOUT_SHADER_READ_ONLY_OPTIMAL,
    ) {
        Ok(barrier) => barrier,
        Err(_) => unreached(),
    };
    push_one_shot(&mut plan, UploadStep::ChangeLayout { barrier: complete });
    push_release(&mut plan);
    plan
}

/// The plan opens by creating the staging buffer and closes by releasing it,
/// handle before memory, and every submission in it is waited for at once.
pub open spec fn is_staged_upload(plan: Seq<UploadStep>) -> bool {
    &&& plan.len() >= 4
    &&& plan[0] is CreateStagingBuffer
    &&& plan[1] is FillStagingBuffer
    &&& plan[plan.len() - 2] == UploadStep::DestroyStagingBuffer
    &&& plan[plan.len() - 1] == UploadStep::FreeStagingMemory
    &&& forall|i: int|
        0 <= i < plan.len() - 2 ==> #[trigger] plan[i] != UploadStep::DestroyStagingBuffer
            && plan[i] != UploadStep::FreeStagingMemory
    &&& forall|i: int|
        0 <= i < plan.len() && #[trigger] plan[i] == UploadStep::SubmitCommands ==> i + 1
            < plan.len() - 2 && plan[i + 1] == UploadStep::WaitQueueIdle
}

/// Both kinds of upload follow the staging protocol: nothing is released
/// while a copy from the staging buffer may still be running.
pub proof fn lemma_uploads_are_staged(size: u64, usage: u32, width: u32, height: u32)
    ensures
        is_staged_upload(buffer_upload(size, usage)),
        is_staged_upload(texture_upload(width, height, size)),
{
}

} // verus!
