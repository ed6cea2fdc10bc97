//! Questions about Vulkan flag words, answered by the `ash` bindings.

use vstd::prelude::*;

verus! {

/// Bit of a queue family's flags that marks support for graphics work.
pub const QUEUE_GRAPHICS_BIT: u32 = 0x1;

/// Bit of a memory type's flags that marks memory local to the device.
pub const MEMORY_PROPERTY_DEVICE_LOCAL_BIT: u32 = 0x1;

/// Bit of a memory type's flags that marks memory the host can map.
pub const MEMORY_PROPERTY_HOST_VISIBLE_BIT: u32 = 0x2;

/// Bit of a memory type's flags that marks memory needing no explicit flush.
pub const MEMORY_PROPERTY_HOST_COHERENT_BIT: u32 = 0x4;

/// Some bit is set in both `flags` and `mask`.
pub open spec fn flags_intersect(flags: u32, mask: u32) -> bool {
    flags & mask != 0
}

/// Every bit set in `wanted` is also set in `flags`.
pub open spec fn flags_contain(flags: u32, wanted: u32) -> bool {
    flags & wanted == wanted
}

/// Calls `ash::vk::QueueFlags::intersects` on the two flag words.
///
/// Trusted: the result is taken to be whether the two words share a set bit,
/// which is how `ash` defines the method for all of its flag types.
#[verifier::external_body]
pub(crate) fn queue_flags_intersect(flags: u32, mask: u32) -> (hit: bool)
    ensures
        hit == flags_intersect(flags, mask),
{
    ash::vk::QueueFlags::from_raw(flags).intersects(ash::vk::QueueFlags::from_raw(mask))
}

/// Calls `ash::vk::MemoryPropertyFlags::contains` on the two flag words.
///
/// Trusted: the result is taken to be whether `wanted` is a subset of `flags`,
/// which is how `ash` defines the method for all of its flag types.
#[verifier::external_body]
pub(crate) fn memory_flags_contain(flags: u32, wanted: u32) -> (all: bool)
    ensures
        all == flags_contain(flags, wanted),
{
    ash::vk::MemoryPropertyFlags::from_raw(flags).contains(
        ash::vk::MemoryPropertyFlags::from_raw(wanted),
    )
}

} // verus!
