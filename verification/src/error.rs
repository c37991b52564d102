//! The fatal conditions of device start-up and of resource creation.
//!
//! None of them is retried: each one names a capability that the machine
//! lacks or a call that the driver failed, and the caller decides what a
//! failure means for the process.

use vstd::prelude::*;

verus! {

/// Why a device could not be stood up, queried or torn down.
#[derive(Debug)]
pub enum DeviceError {
    /// The machine has no physical device at all.
    NoPhysicalDevice,
    /// No physical device scored above zero.
    NoSuitableDevice,
    /// The chosen device offers no depth-stencil format.
    NoDepthFormat,
    /// The surface did not answer a swapchain query.
    SwapchainQueryFailed,
    /// The device-wide idle wait failed.
    WaitIdleFailed(ash::vk::Result),
    /// The device was torn down before.
    AlreadyDestroyed,
}

/// Why a texture or a shader could not be created.
#[derive(Debug)]
pub enum ResourceError {
    /// The device's allocator was torn down before.
    AllocatorUnavailable,
    ImageCreationFailed(ash::vk::Result),
    AllocationFailed(gpu_allocator::AllocationError),
    BindImageMemoryFailed(ash::vk::Result),
    SamplerCreationFailed(ash::vk::Result),
    ImageViewCreationFailed(ash::vk::Result),
    ShaderModuleCreationFailed(ash::vk::Result),
}

pub open spec fn device_error_text(e: DeviceError) -> Seq<char> {
    match e {
        DeviceError::NoPhysicalDevice => "No GPUs on this machine support Vulkan!"@,
        DeviceError::NoSuitableDevice => "No GPUs on this machine are supported!"@,
        DeviceError::NoDepthFormat => "No depth format found on this device!"@,
        DeviceError::SwapchainQueryFailed => "Failed to get physical device swapchain support details!"@,
        DeviceError::WaitIdleFailed(_) => "Wait idle failed!"@,
        DeviceError::AlreadyDestroyed => "The device was destroyed before!"@,
    }
}

pub open spec fn resource_error_text(e: ResourceError) -> Seq<char> {
    match e {
        ResourceError::AllocatorUnavailable => "The allocator was destroyed before!"@,
        ResourceError::ImageCreationFailed(_) => "Failed to create image!"@,
        ResourceError::AllocationFailed(_) => "Failed to allocate memory!"@,
        ResourceError::BindImageMemoryFailed(_) => "Failed to bind image memory!"@,
        ResourceError::SamplerCreationFailed(_) => "Failed to create sampler!"@,
        ResourceError::ImageViewCreationFailed(_) => "Failed to create image view!"@,
        ResourceError::ShaderModuleCreationFailed(_) => "Failed to create shader!"@,
    }
}

impl DeviceError {
    /// The sentence that describes the condition.
    pub fn message(&self) -> (r: &'static str)
        ensures
            r@ == device_error_text(*self),
    {
        match self {
            DeviceError::NoPhysicalDevice => "No GPUs on this machine support Vulkan!",
            DeviceError::NoSuitableDevice => "No GPUs on this machine are supported!",
            DeviceError::NoDepthFormat => "No depth format found on this device!",
            DeviceError::SwapchainQueryFailed => "Failed to get physical device swapchain support details!",
            DeviceError::WaitIdleFailed(_) => "Wait idle failed!",
            DeviceError::AlreadyDestroyed => "The device was destroyed before!",
        }
    }
}

impl ResourceError {
    /// The sentence that describes the condition.
    pub fn message(&self) -> (r: &'static str)
        ensures
            r@ == resource_error_text(*self),
    {
        match self {
            ResourceError::AllocatorUnavailable => "The allocator was destroyed before!",
            ResourceError::ImageCreationFailed(_) => "Failed to create image!",
            ResourceError::AllocationFailed(_) => "Failed to allocate memory!",
            ResourceError::BindImageMemoryFailed(_) => "Failed to bind image memory!",
            ResourceError::SamplerCreationFailed(_) => "Failed to create sampler!",
            ResourceError::ImageViewCreationFailed(_) => "Failed to create image view!",
            ResourceError::ShaderModuleCreationFailed(_) => "Failed to create shader!",
        }
    }
}

} // verus!
