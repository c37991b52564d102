//! The values and tests that this crate takes from `ash`.
//!
//! Flags and enumerants travel through the crate as the raw integers that
//! Vulkan defines. The functions below are the only places where `ash` is
//! called; their contracts are believed, not proved.

use vstd::prelude::*;

verus! {

/// `VK_QUEUE_GRAPHICS_BIT`.
pub const QUEUE_GRAPHICS_BIT: u32 = 0x1;

/// `VK_QUEUE_COMPUTE_BIT`.
pub const QUEUE_COMPUTE_BIT: u32 = 0x2;

/// `VK_FORMAT_FEATURE_DEPTH_STENCIL_ATTACHMENT_BIT`.
pub const FORMAT_FEATURE_DEPTH_STENCIL_ATTACHMENT_BIT: u32 = 0x200;

/// `VK_PHYSICAL_DEVICE_TYPE_INTEGRATED_GPU`.
pub const PHYSICAL_DEVICE_TYPE_INTEGRATED_GPU: i32 = 1;

/// `VK_PHYSICAL_DEVICE_TYPE_DISCRETE_GPU`.
pub const PHYSICAL_DEVICE_TYPE_DISCRETE_GPU: i32 = 2;

/// `VK_IMAGE_USAGE_TRANSFER_SRC_BIT`.
pub const IMAGE_USAGE_TRANSFER_SRC_BIT: u32 = 0x1;

/// `VK_IMAGE_USAGE_TRANSFER_DST_BIT`.
pub const IMAGE_USAGE_TRANSFER_DST_BIT: u32 = 0x2;

/// `VK_IMAGE_USAGE_SAMPLED_BIT`.
pub const IMAGE_USAGE_SAMPLED_BIT: u32 = 0x4;

/// `VK_IMAGE_USAGE_STORAGE_BIT`.
pub const IMAGE_USAGE_STORAGE_BIT: u32 = 0x8;

/// `VK_IMAGE_USAGE_COLOR_ATTACHMENT_BIT`.
pub const IMAGE_USAGE_COLOR_ATTACHMENT_BIT: u32 = 0x10;

/// `VK_IMAGE_USAGE_DEPTH_STENCIL_ATTACHMENT_BIT`.
pub const IMAGE_USAGE_DEPTH_STENCIL_ATTACHMENT_BIT: u32 = 0x20;

/// `VkResult`, carried through to the caller unread.
#[verifier::external_type_specification]
#[verifier::external_body]
pub struct ExVkResult(ash::vk::Result);

/// `VkSurfaceCapabilitiesKHR`, carried through to the caller unread.
#[verifier::external_type_specification]
#[verifier::external_body]
pub struct ExSurfaceCapabilitiesKHR(ash::vk::SurfaceCapabilitiesKHR);

/// `VkSurfaceFormatKHR`, carried through to the caller unread.
#[verifier::external_type_specification]
#[verifier::external_body]
pub struct ExSurfaceFormatKHR(ash::vk::SurfaceFormatKHR);

/// `VkPresentModeKHR`, carried through to the caller unread.
#[verifier::external_type_specification]
#[verifier::external_body]
pub struct ExPresentModeKHR(ash::vk::PresentModeKHR);

/// The allocator's error, carried through to the caller unread.
#[verifier::external_type_specification]
#[verifier::external_body]
pub struct ExAllocationError(gpu_allocator::AllocationError);

/// Whether every bit of `wanted` is set in `flags`.
pub open spec fn has_flags(flags: u32, wanted: u32) -> bool {
    flags & wanted == wanted
}

/// Calls `ash::vk::QueueFlags::contains` on the two raw flag words: the
/// result says whether every bit of `wanted` is set in `flags`.
#[verifier::external_body]
pub(crate) fn queue_flags_contain(flags: u32, wanted: u32) -> (r: bool)
    ensures
        r == has_flags(flags, wanted),
{
    ash::vk::QueueFlags::from_raw(flags).contains(ash::vk::QueueFlags::from_raw(wanted))
}

/// Reads `ash::vk::QueueFlags::GRAPHICS`, whose raw value is bit 0.
#[verifier::external_body]
pub(crate) fn queue_graphics_bit() -> (r: u32)
    ensures
        r == QUEUE_GRAPHICS_BIT,
{
    ash::vk::QueueFlags::GRAPHICS.as_raw()
}

/// Reads `ash::vk::QueueFlags::COMPUTE`, whose raw value is bit 1.
#[verifier::external_body]
pub(crate) fn queue_compute_bit() -> (r: u32)
    ensures
        r == QUEUE_COMPUTE_BIT,
{
    ash::vk::QueueFlags::COMPUTE.as_raw()
}

/// Calls `ash::vk::FormatFeatureFlags::contains` on the two raw flag words:
/// the result says whether every bit of `wanted` is set in `flags`.
#[verifier::external_body]
pub(crate) fn format_features_contain(flags: u32, wanted: u32) -> (r: bool)
    ensures
        r == has_flags(flags, wanted),
{
    ash::vk::FormatFeatureFlags::from_raw(flags).contains(
        ash::vk::FormatFeatureFlags::from_raw(wanted),
    )
}

/// Reads `ash::vk::FormatFeatureFlags::DEPTH_STENCIL_ATTACHMENT`, whose raw
/// value is bit 9.
#[verifier::external_body]
pub(crate) fn format_feature_depth_stencil_attachment_bit() -> (r: u32)
    ensures
        r == FORMAT_FEATURE_DEPTH_STENCIL_ATTACHMENT_BIT,
{
    ash::vk::FormatFeatureFlags::DEPTH_STENCIL_ATTACHMENT.as_raw()
}

/// Reads `ash::vk::PhysicalDeviceType::INTEGRATED_GPU`, whose raw value is 1.
#[verifier::external_body]
pub(crate) fn physical_device_type_integrated_gpu() -> (r: i32)
    ensures
        r == PHYSICAL_DEVICE_TYPE_INTEGRATED_GPU,
{
    ash::vk::PhysicalDeviceType::INTEGRATED_GPU.as_raw()
}

/// Reads `ash::vk::PhysicalDeviceType::DISCRETE_GPU`, whose raw value is 2.
#[verifier::external_body]
pub(crate) fn physical_device_type_discrete_gpu() -> (r: i32)
    ensures
        r == PHYSICAL_DEVICE_TYPE_DISCRETE_GPU,
{
    ash::vk::PhysicalDeviceType::DISCRETE_GPU.as_raw()
}

/// Reads `ash::vk::ImageUsageFlags::TRANSFER_SRC`, whose raw value is bit 0.
#[verifier::external_body]
pub(crate) fn image_usage_transfer_src_bit() -> (r: u32)
    ensures
        r == IMAGE_USAGE_TRANSFER_SRC_BIT,
{
    ash::vk::ImageUsageFlags::TRANSFER_SRC.as_raw()
}

/// Reads `ash::vk::ImageUsageFlags::TRANSFER_DST`, whose raw value is bit 1.
#[verifier::external_body]
pub(crate) fn image_usage_transfer_dst_bit() -> (r: u32)
    ensures
        r == IMAGE_USAGE_TRANSFER_DST_BIT,
{
    ash::vk::ImageUsageFlags::TRANSFER_DST.as_raw()
}

/// Reads `ash::vk::ImageUsageFlags::SAMPLED`, whose raw value is bit 2.
#[verifier::external_body]
pub(crate) fn image_usage_sampled_bit() -> (r: u32)
    ensures
        r == IMAGE_USAGE_SAMPLED_BIT,
{
    ash::vk::ImageUsageFlags::SAMPLED.as_raw()
}

/// Reads `ash::vk::ImageUsageFlags::STORAGE`, whose raw value is bit 3.
#[verifier::external_body]
pub(crate) fn image_usage_storage_bit() -> (r: u32)
    ensures
        r == IMAGE_USAGE_STORAGE_BIT,
{
    ash::vk::ImageUsageFlags::STORAGE.as_raw()
}

/// Reads `ash::vk::ImageUsageFlags::COLOR_ATTACHMENT`, whose raw value is
/// bit 4.
#[verifier::external_body]
pub(crate) fn image_usage_color_attachment_bit() -> (r: u32)
    ensures
        r == IMAGE_USAGE_COLOR_ATTACHMENT_BIT,
{
    ash::vk::ImageUsageFlags::COLOR_ATTACHMENT.as_raw()
}

/// Reads `ash::vk::ImageUsageFlags::DEPTH_STENCIL_ATTACHMENT`, whose raw
/// value is bit 5.
#[verifier::external_body]
pub(crate) fn image_usage_depth_stencil_attachment_bit() -> (r: u32)
    ensures
        r == IMAGE_USAGE_DEPTH_STENCIL_ATTACHMENT_BIT,
{
    ash::vk::ImageUsageFlags::DEPTH_STENCIL_ATTACHMENT.as_raw()
}

} // verus!
