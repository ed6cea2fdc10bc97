//! The objects that exist once per in-flight slot or once per swapchain
//! image, and the descriptors that tie them to the shaders.

use vstd::prelude::*;
use crate::device::QueueFamilyIndices;
use crate::flags::{MEMORY_PROPERTY_HOST_COHERENT_BIT, MEMORY_PROPERTY_HOST_VISIBLE_BIT};
use crate::render::{SHADER_STAGE_FRAGMENT_BIT, SHADER_STAGE_VERTEX_BIT};
use crate::upload::{BUFFER_USAGE_UNIFORM_BUFFER_BIT, IMAGE_LAYOUT_SHADER_READ_ONLY_OPTIMAL};

verus! {

/// Flag bit of a command pool whose buffers can be reset one by one.
pub const COMMAND_POOL_RESET_COMMAND_BUFFER_BIT: u32 = 0x2;

/// Aspect bit of the colour part of an image.
pub const IMAGE_ASPECT_COLOR_BIT: u32 = 0x1;

/// What a uniform buffer is created with.
#[derive(Clone, Copy, Debug, PartialEq, Eq, Structural)]
pub struct UniformBufferPlan {
    /// The in-flight slot the buffer belongs to, and to no other.
    pub slot: u32,
    pub size: u64,
    pub usage: u32,
    pub memory_properties: u32,
    /// The memory is mapped once and stays mapped.
    pub persistently_mapped: bool,
}

/// The uniform buffer of in-flight slot `slot`: memory the host can write at
/// any time without flushing, so that no staging is needed.
pub open spec fn uniform_buffer_for(slot: int, size: u64) -> UniformBufferPlan {
    UniformBufferPlan {
        slot: slot as u32,
        size,
        usage: BUFFER_USAGE_UNIFORM_BUFFER_BIT,
        memory_properties: MEMORY_PROPERTY_HOST_COHERENT_BIT | MEMORY_PROPERTY_HOST_VISIBLE_BIT,
        persistently_mapped: true,
    }
}

/// Plans the uniform buffers: one per in-flight slot, each `size` bytes.
pub fn plan_uniform_buffers(frames_in_flight: u32, size: u64) -> (plans: Vec<UniformBufferPlan>)
    ensures
        plans@.len() == frames_in_flight,
        forall|i: int|
            0 <= i < frames_in_flight ==> #[trigger] plans@[i] == uniform_buffer_for(i, size),
{
    let mut plans: Vec<UniformBufferPlan> = Vec::new();
    let mut i: u32 = 0;
    while i < frames_in_flight
        invariant
            i <= frames_in_flight,
            plans@.len() == i,
            forall|k: int| 0 <= k < i ==> #[trigger] plans@[k] == uniform_buffer_for(k, size),
        decreases frames_in_flight - i,
    {
        plans.push(
            UniformBufferPlan {
                slot: i,
                size,
                usage: BUFFER_USAGE_UNIFORM_BUFFER_BIT,
                memory_properties: MEMORY_PROPERTY_HOST_COHERENT_BIT
                    | MEMORY_PROPERTY_HOST_VISIBLE_BIT,
                persistently_mapped: true,
            },
        );
        i += 1;
    }
    plans
}

/// How many synchronisation objects to create, and in what state.
#[derive(Clone, Copy, Debug, PartialEq, Eq, Structural)]
pub struct SyncObjectsPlan {
    pub image_available_semaphores: u32,
    pub render_finished_semaphores: u32,
    pub in_flight_fences: u32,
    /// The fences start signalled, so that the first wait on each returns.
    pub fences_signaled: bool,
}

/// Plans the synchronisation objects: two semaphores and one fence per
/// in-flight slot.
pub fn plan_sync_objects(frames_in_flight: u32) -> (plan: SyncObjectsPlan)
    ensures
        plan == (SyncObjectsPlan {
            image_available_semaphores: frames_in_flight,
            render_finished_semaphores: frames_in_flight,
            in_flight_fences: frames_in_flight,
            fences_signaled: true,
        }),
{
    SyncObjectsPlan {
        image_available_semaphores: frames_in_flight,
        render_finished_semaphores: frames_in_flight,
        in_flight_fences: frames_in_flight,
        fences_signaled: true,
    }
}

/// What the command pool and its buffers are created with.
#[derive(Clone, Copy, Debug, PartialEq, Eq, Structural)]
pub struct CommandPoolPlan {
    pub flags: u32,
    /// The queue family the buffers are submitted to.
    pub queue_family_index: u32,
    /// Number of primary command buffers to allocate.
    pub command_buffers: u32,
}

/// Plans the command pool: its buffers go to the graphics queue, can be
/// reset one by one, and there is one per in-flight slot.
pub fn plan_command_pool(indices: &QueueFamilyIndices, frames_in_flight: u32) -> (plan:
    CommandPoolPlan)
    requires
        indices.graphics_family is Some,
    ensures
        plan == (CommandPoolPlan {
            flags: COMMAND_POOL_RESET_COMMAND_BUFFER_BIT,
            queue_family_index: indices.graphics_family->0,
            command_buffers: frames_in_flight,
        }),
{
    CommandPoolPlan {
        flags: COMMAND_POOL_RESET_COMMAND_BUFFER_BIT,
        queue_family_index: indices.graphics_family.unwrap(),
        command_buffers: frames_in_flight,
    }
}

/// What an image view is created with.
#[derive(Clone, Copy, Debug, PartialEq, Eq, Structural)]
pub struct ImageViewPlan {
    /// Index of the image the view is of.
    pub image: u32,
    pub format: i32,
    /// The view is of a plain two-dimensional image.
    pub two_dimensional: bool,
    pub aspect_mask: u32,
    pub base_mip_level: u32,
    pub level_count: u32,
    pub base_array_layer: u32,
    pub layer_count: u32,
}

/// The view of image `image`: the colour of its only level and layer.
pub open spec fn image_view_for(image: int, format: i32) -> ImageViewPlan {
    ImageViewPlan {
        image: image as u32,
        format,
        two_dimensional: true,
        aspect_mask: IMAGE_ASPECT_COLOR_BIT,
        base_mip_level: 0,
        level_count: 1,
        base_array_layer: 0,
        layer_count: 1,
    }
}

/// Plans the view of one image.
pub fn plan_image_view(image: u32, format: i32) -> (plan: ImageViewPlan)
    ensures
        plan == image_view_for(image as int, format),
{
    ImageViewPlan {
        image,
        format,
        two_dimensional: true,
        aspect_mask: IMAGE_ASPECT_COLOR_BIT,
        base_mip_level: 0,
        level_count: 1,
        base_array_layer: 0,
        layer_count: 1,
    }
}

/// Plans the views of a swapchain's images: one per image, in the
/// swapchain's format.
pub fn plan_image_views(image_count: u32, swap_chain_image_format: i32) -> (plans: Vec<
    ImageViewPlan,
>)
    ensures
        plans@.len() == image_count,
        forall|i: int|
            0 <= i < image_count ==> #[trigger] plans@[i] == image_view_for(
                i,
                swap_chain_image_format,
            ),
{
    let mut plans: Vec<ImageViewPlan> = Vec::new();
    let mut i: u32 = 0;
    while i < image_count
        invariant
            i <= image_count,
            plans@.len() == i,
            forall|k: int|
                0 <= k < i ==> #[trigger] plans@[k] == image_view_for(k, swap_chain_image_format),
        decreases image_count - i,
    {
        plans.push(plan_image_view(i, swap_chain_image_format));
        i += 1;
    }
    plans
}

/// What a descriptor holds.
#[derive(Clone, Copy, Debug, PartialEq, Eq, Structural)]
pub enum DescriptorKind {
    UniformBuffer,
    CombinedImageSampler,
}

/// One binding of the descriptor set layout.
#[derive(Clone, Copy, Debug, PartialEq, Eq, Structural)]
pub struct DescriptorBinding {
    pub binding: u32,
    pub kind: DescriptorKind,
    pub descriptor_count: u32,
    /// The shader stages that read the binding.
    pub stage_flags: u32,
}

/// The bindings of the descriptor set layout: the uniform data for the
/// vertex shader at binding 0, the texture for the fragment shader at
/// binding 1.
pub open spec fn layout_bindings() -> Seq<DescriptorBinding> {
    seq![
        DescriptorBinding {
            binding: 0,
            kind: DescriptorKind::UniformBuffer,
            descriptor_count: 1,
            stage_flags: SHADER_STAGE_VERTEX_BIT,
        },
        DescriptorBinding {
            binding: 1,
            kind: DescriptorKind::CombinedImageSampler,
            descriptor_count: 1,
            stage_flags: SHADER_STAGE_FRAGMENT_BIT,
        },
    ]
}

/// Lists the bindings of the descriptor set layout.
pub fn plan_descriptor_set_layout() -> (bindings: Vec<DescriptorBinding>)
    ensures
        bindings@ == layout_bindings(),
{
    let mut bindings: Vec<DescriptorBinding> = Vec::new();
    bindings.push(
        DescriptorBinding {
            binding: 0,
            kind: DescriptorKind::UniformBuffer,
            descriptor_count: 1,
            stage_flags: SHADER_STAGE_VERTEX_BIT,
        },
    );
    bindings.push(
        DescriptorBinding {
            binding: 1,
            kind: DescriptorKind::CombinedImageSampler,
            descriptor_count: 1,
            stage_flags: SHADER_STAGE_FRAGMENT_BIT,
        },
    );
    bindings
}

/// What the descriptor pool is created with.
#[derive(Clone, Copy, Debug, PartialEq, Eq, Structural)]
pub struct DescriptorPoolPlan {
    pub uniform_buffer_descriptors: u32,
    pub image_sampler_descriptors: u32,
    pub max_sets: u32,
}

/// Plans the descriptor pool: room for one set per in-flight slot, each with
/// one descriptor of either kind.
pub fn plan_descriptor_pool(frames_in_flight: u32) -> (plan: DescriptorPoolPlan)
    ensures
        plan == (DescriptorPoolPlan {
            uniform_buffer_descriptors: frames_in_flight,
            image_sampler_descriptors: frames_in_flight,
            max_sets: frames_in_flight,
        }),
{
    DescriptorPoolPlan {
        uniform_buffer_descriptors: frames_in_flight,
        image_sampler_descriptors: frames_in_flight,
        max_sets: frames_in_flight,
    }
}

/// One write into a descriptor set.
#[derive(Clone, Copy, Debug, PartialEq, Eq, Structural)]
pub enum DescriptorWrite {
    /// Point binding 0 of the set of slot `set` at the first `range` bytes
    /// of uniform buffer `buffer`.
    UniformBuffer { set: u32, binding: u32, buffer: u32, offset: u64, range: u64 },
    /// Point binding 1 of the set of slot `set` at the texture and its
    /// sampler, the texture being in `image_layout`.
    ImageSampler { set: u32, binding: u32, image_layout: i32 },
}

/// The write number `k` into the descriptor sets: the sets are written one
/// after another, the uniform buffer of a set before its texture, and each
/// set gets the uniform buffer of its own slot.
pub open spec fn descriptor_write(k: int, uniform_size: u64) -> DescriptorWrite {
    if k % 2 == 0 {
        DescriptorWrite::UniformBuffer {
            set: (k / 2) as u32,
            binding: 0,
            buffer: (k / 2) as u32,
            offset: 0,
            range: uniform_size,
        }
    } else {
        DescriptorWrite::ImageSampler {
            set: (k / 2) as u32,
            binding: 1,
            image_layout: IMAGE_LAYOUT_SHADER_READ_ONLY_OPTIMAL,
        }
    }
}

/// The number of descriptor sets that are written: as many as there are
/// both uniform buffers and sets.
pub open spec fn written_sets(uniform_buffer_count: u32, set_count: u32) -> u32 {
    if uniform_buffer_count < set_count {
        uniform_buffer_count
    } else {
        set_count
    }
}

/// Plans the writes that fill the descriptor sets.
pub fn plan_descriptor_writes(uniform_buffer_count: u32, set_count: u32, uniform_size: u64) -> (writes:
    Vec<DescriptorWrite>)
    ensures
        writes@.len() == 2 * written_sets(uniform_buffer_count, set_count),
        forall|k: int|
            0 <= k < writes@.len() ==> #[trigger] writes@[k] == descriptor_write(k, uniform_size),
{
    let pairs = if uniform_buffer_count < set_count {
        uniform_buffer_count
    } else {
        set_count
    };
    let mut writes: Vec<DescriptorWrite> = Vec::new();
    let mut i: u32 = 0;
    while i < pairs
        invariant
            i <= pairs,
            writes@.len() == 2 * i,
            forall|k: int|
                0 <= k < writes@.len() ==> #[trigger] writes@[k] == descriptor_write(
                    k,
                    uniform_size,
                ),
        decreases pairs - i,
    {
        writes.push(
            DescriptorWrite::UniformBuffer {
                set: i,
                binding: 0,
                buffer: i,
                offset: 0,
                range: uniform_size,
            },
        );
        writes.push(
            DescriptorWrite::ImageSampler {
                set: i,
                binding: 1,
                image_layout: IMAGE_LAYOUT_SHADER_READ_ONLY_OPTIMAL,
            },
        );
        i += 1;
    }
    writes
}

/// How a texture is sampled.
#[derive(Clone, Copy, Debug, PartialEq, Eq, Structural)]
pub struct SamplerPlan {
    /// Magnified and minified texels are interpolated linearly.
    pub linear_filter: bool,
    /// Coordinates outside the texture wrap around, on all three axes.
    pub repeat: bool,
    /// Anisotropic filtering is on, at the most the device allows.
    pub anisotropy: bool,
    /// Coordinates run from 0 to 1 whatever the size of the texture.
    pub normalized_coordinates: bool,
    /// Sampled values are compared with a reference.
    pub compare: bool,
    /// Mip levels are interpolated linearly.
    pub linear_mipmap: bool,
}

/// Gives the way the texture is sampled.
pub fn plan_texture_sampler() -> (plan: SamplerPlan)
    ensures
        plan == (SamplerPlan {
            linear_filter: true,
            repeat: true,
            anisotropy: true,
            normalized_coordinates: true,
            compare: false,
            linear_mipmap: true,
        }),
{
    SamplerPlan {
        linear_filter: true,
        repeat: true,
        anisotropy: true,
        normalized_coordinates: true,
        compare: false,
        linear_mipmap: true,
    }
}

} // verus!
