//! Bit masks and packed versions, as the Vulkan bindings compute them.
use vstd::prelude::*;

verus! {

/// `VK_QUEUE_GRAPHICS_BIT`.
pub const QUEUE_GRAPHICS: u32 = 0x1;

/// `VK_QUEUE_TRANSFER_BIT`.
pub const QUEUE_TRANSFER: u32 = 0x4;

/// `VK_MEMORY_PROPERTY_DEVICE_LOCAL_BIT`.
pub const MEMORY_DEVICE_LOCAL: u32 = 0x1;

/// `VK_MEMORY_PROPERTY_HOST_VISIBLE_BIT`.
pub const MEMORY_HOST_VISIBLE: u32 = 0x2;

/// `VK_MEMORY_PROPERTY_HOST_COHERENT_BIT`.
pub const MEMORY_HOST_COHERENT: u32 = 0x4;

/// `VK_BUFFER_USAGE_TRANSFER_SRC_BIT`.
pub const BUFFER_TRANSFER_SRC: u32 = 0x1;

/// `VK_BUFFER_USAGE_TRANSFER_DST_BIT`.
pub const BUFFER_TRANSFER_DST: u32 = 0x2;

/// `VK_BUFFER_USAGE_UNIFORM_BUFFER_BIT`.
pub const BUFFER_UNIFORM: u32 = 0x10;

/// `VK_BUFFER_USAGE_INDEX_BUFFER_BIT`.
pub const BUFFER_INDEX: u32 = 0x40;

/// `VK_BUFFER_USAGE_VERTEX_BUFFER_BIT`.
pub const BUFFER_VERTEX: u32 = 0x80;

/// Every bit of `wanted` is set in `flags`.
pub open spec fn contains_all(flags: u32, wanted: u32) -> bool {
    flags & wanted == wanted
}

/// The packed form of a three-part version number.
pub open spec fn packed_version(major: u32, minor: u32, patch: u32) -> u32 {
    (major << 22u32) | (minor << 12u32) | patch
}

/// `ash::vk::QueueFlags::contains` on raw masks: whether every capability
/// in `wanted` is among `flags`.
#[verifier::external_body]
pub(crate) fn queue_flags_contain(flags: u32, wanted: u32) -> (found: bool)
    ensures
        found == contains_all(flags, wanted),
{
    ash::vk::QueueFlags::from_raw(flags).contains(ash::vk::QueueFlags::from_raw(wanted))
}

/// `ash::vk::MemoryPropertyFlags::contains` on raw masks: whether every
/// property in `wanted` is among `flags`.
#[verifier::external_body]
pub(crate) fn memory_flags_contain(flags: u32, wanted: u32) -> (found: bool)
    ensures
        found == contains_all(flags, wanted),
{
    ash::vk::MemoryPropertyFlags::from_raw(flags).contains(
        ash::vk::MemoryPropertyFlags::from_raw(wanted),
    )
}

/// `ash::vk::make_version`: the major part shifted left by 22 bits, the
/// minor part shifted left by 12 and the patch part, or-ed together.
#[verifier::external_body]
pub(crate) fn make_version(major: u32, minor: u32, patch: u32) -> (version: u32)
    ensures
        version == packed_version(major, minor, patch),
{
    ash::vk::make_version(major, minor, patch)
}

} // verus!
