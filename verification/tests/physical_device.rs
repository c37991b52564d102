use ash::vk;
use goldfish::error::DeviceError;
use goldfish::physical_device::{
    rate_device_suitability, select_depth_format, select_physical_device, DepthFormat,
    DepthFormatSupport, PhysicalDeviceCandidate, PhysicalDeviceProperties,
};
use goldfish::queue_family::QueueFamily;
use goldfish::device::VulkanDevice;
use goldfish::swapchain::SwapchainDetails;

fn swapchain() -> Option<SwapchainDetails> {
    Some(SwapchainDetails {
        capabilities: vk::SurfaceCapabilitiesKHR::default(),
        surface_formats: vec![vk::SurfaceFormatKHR::default()],
        present_modes: vec![vk::PresentModeKHR::FIFO],
    })
}

fn no_depth() -> DepthFormatSupport {
    DepthFormatSupport {
        d32_sfloat_s8_uint: 0,
        d32_sfloat: 0,
        d24_unorm_s8_uint: 0,
        d16_unorm_s8_uint: 0,
        d16_unorm: 0,
    }
}

fn capable_families() -> Vec<QueueFamily> {
    vec![QueueFamily {
        queue_flags: (vk::QueueFlags::GRAPHICS | vk::QueueFlags::COMPUTE | vk::QueueFlags::TRANSFER)
            .as_raw(),
        present_support: true,
    }]
}

fn device(handle: u64, device_type: vk::PhysicalDeviceType, max_dim: u32) -> PhysicalDeviceCandidate {
    PhysicalDeviceCandidate {
        handle,
        properties: PhysicalDeviceProperties {
            device_type: device_type.as_raw(),
            max_image_dimension_2d: max_dim,
        },
        queue_families: capable_families(),
        swapchain_support: swapchain(),
        depth_support: no_depth(),
    }
}

#[test]
fn discrete_gpu_scores_one_thousand_plus_its_image_dimension() {
    let d = device(1, vk::PhysicalDeviceType::DISCRETE_GPU, 16384);
    assert_eq!(rate_device_suitability(&d), 17384);
}

#[test]
fn integrated_gpu_scores_one_plus_its_image_dimension() {
    let d = device(1, vk::PhysicalDeviceType::INTEGRATED_GPU, 16384);
    assert_eq!(rate_device_suitability(&d), 16385);
}

#[test]
fn other_kinds_score_their_image_dimension_alone() {
    assert_eq!(rate_device_suitability(&device(1, vk::PhysicalDeviceType::CPU, 4096)), 4096);
    assert_eq!(rate_device_suitability(&device(1, vk::PhysicalDeviceType::VIRTUAL_GPU, 4096)), 4096);
    assert_eq!(rate_device_suitability(&device(1, vk::PhysicalDeviceType::OTHER, 4096)), 4096);
}

#[test]
fn score_does_not_overflow_at_the_largest_image_dimension() {
    let d = device(1, vk::PhysicalDeviceType::DISCRETE_GPU, u32::MAX);
    assert_eq!(rate_device_suitability(&d), 4294967295u64 + 1000);
}

#[test]
fn device_without_present_family_scores_zero() {
    let mut d = device(1, vk::PhysicalDeviceType::DISCRETE_GPU, u32::MAX);
    d.queue_families = vec![
        QueueFamily {
            queue_flags: (vk::QueueFlags::GRAPHICS | vk::QueueFlags::COMPUTE).as_raw(),
            present_support: false,
        },
        QueueFamily { queue_flags: vk::QueueFlags::TRANSFER.as_raw(), present_support: false },
    ];
    assert_eq!(rate_device_suitability(&d), 0);
    let mut i = device(2, vk::PhysicalDeviceType::INTEGRATED_GPU, 1);
    i.queue_families[0].present_support = false;
    assert_eq!(rate_device_suitability(&i), 0);
}

#[test]
fn device_without_combined_family_scores_zero() {
    let mut d = device(1, vk::PhysicalDeviceType::DISCRETE_GPU, 8192);
    d.queue_families = vec![
        QueueFamily { queue_flags: vk::QueueFlags::GRAPHICS.as_raw(), present_support: true },
        QueueFamily { queue_flags: vk::QueueFlags::COMPUTE.as_raw(), present_support: true },
    ];
    assert_eq!(rate_device_suitability(&d), 0);
}

#[test]
fn device_without_swapchain_support_scores_zero() {
    let mut d = device(1, vk::PhysicalDeviceType::DISCRETE_GPU, 8192);
    d.swapchain_support = None;
    assert_eq!(rate_device_suitability(&d), 0);
}

#[test]
fn selection_picks_the_discrete_gpu_among_equal_capabilities() {
    let candidates = vec![
        device(10, vk::PhysicalDeviceType::INTEGRATED_GPU, 16384),
        device(11, vk::PhysicalDeviceType::DISCRETE_GPU, 16384),
        device(12, vk::PhysicalDeviceType::INTEGRATED_GPU, 16384),
    ];
    assert!(matches!(select_physical_device(&candidates), Ok(1)));
}

#[test]
fn selection_keeps_the_first_of_equal_scores() {
    let candidates = vec![
        device(10, vk::PhysicalDeviceType::CPU, 100),
        device(11, vk::PhysicalDeviceType::DISCRETE_GPU, 4096),
        device(12, vk::PhysicalDeviceType::DISCRETE_GPU, 4096),
    ];
    assert!(matches!(select_physical_device(&candidates), Ok(1)));
}

#[test]
fn selection_picks_the_highest_score() {
    let candidates = vec![
        device(10, vk::PhysicalDeviceType::DISCRETE_GPU, 4096),
        device(11, vk::PhysicalDeviceType::INTEGRATED_GPU, 16384),
    ];
    assert!(matches!(select_physical_device(&candidates), Ok(1)));
}

#[test]
fn selection_fails_without_any_physical_device() {
    let candidates: Vec<PhysicalDeviceCandidate> = Vec::new();
    assert!(matches!(select_physical_device(&candidates), Err(DeviceError::NoPhysicalDevice)));
}

#[test]
fn selection_fails_where_every_device_scores_zero() {
    let mut a = device(10, vk::PhysicalDeviceType::DISCRETE_GPU, 4096);
    a.swapchain_support = None;
    let b = device(11, vk::PhysicalDeviceType::OTHER, 0);
    assert!(matches!(select_physical_device(&vec![a, b]), Err(DeviceError::NoSuitableDevice)));
}

#[test]
fn depth_format_is_the_first_supported_in_order_of_preference() {
    let bit = vk::FormatFeatureFlags::DEPTH_STENCIL_ATTACHMENT.as_raw();
    let sampled = vk::FormatFeatureFlags::SAMPLED_IMAGE.as_raw();
    let mut support = no_depth();
    assert_eq!(select_depth_format(&support), None);
    support.d16_unorm = bit;
    assert_eq!(select_depth_format(&support), Some(DepthFormat::D16Unorm));
    support.d16_unorm_s8_uint = bit | sampled;
    assert_eq!(select_depth_format(&support), Some(DepthFormat::D16UnormS8Uint));
    support.d24_unorm_s8_uint = bit;
    assert_eq!(select_depth_format(&support), Some(DepthFormat::D24UnormS8Uint));
    support.d32_sfloat = bit;
    assert_eq!(select_depth_format(&support), Some(DepthFormat::D32Sfloat));
    support.d32_sfloat_s8_uint = sampled;
    assert_eq!(select_depth_format(&support), Some(DepthFormat::D32Sfloat));
    support.d32_sfloat_s8_uint = bit;
    assert_eq!(select_depth_format(&support), Some(DepthFormat::D32SfloatS8Uint));
}

#[test]
fn depth_format_needs_the_attachment_feature_itself() {
    let mut support = no_depth();
    support.d32_sfloat = !vk::FormatFeatureFlags::DEPTH_STENCIL_ATTACHMENT.as_raw();
    assert_eq!(select_depth_format(&support), None);
}

#[test]
fn swapchain_details_need_all_three_answers() {
    let details = VulkanDevice::query_swapchain_support_physical_device(
        Ok(vk::SurfaceCapabilitiesKHR { min_image_count: 2, ..Default::default() }),
        Ok(vec![vk::SurfaceFormatKHR {
            format: vk::Format::B8G8R8A8_SRGB,
            color_space: vk::ColorSpaceKHR::SRGB_NONLINEAR,
        }]),
        Ok(vec![vk::PresentModeKHR::MAILBOX, vk::PresentModeKHR::FIFO]),
    )
    .unwrap();
    assert_eq!(details.capabilities.min_image_count, 2);
    assert_eq!(details.surface_formats.len(), 1);
    assert_eq!(details.surface_formats[0].format, vk::Format::B8G8R8A8_SRGB);
    assert_eq!(details.present_modes, vec![vk::PresentModeKHR::MAILBOX, vk::PresentModeKHR::FIFO]);

    assert!(VulkanDevice::query_swapchain_support_physical_device(
        Err(vk::Result::ERROR_SURFACE_LOST_KHR),
        Ok(Vec::new()),
        Ok(Vec::new()),
    )
    .is_none());
    assert!(VulkanDevice::query_swapchain_support_physical_device(
        Ok(vk::SurfaceCapabilitiesKHR::default()),
        Err(vk::Result::ERROR_OUT_OF_HOST_MEMORY),
        Ok(Vec::new()),
    )
    .is_none());
    assert!(VulkanDevice::query_swapchain_support_physical_device(
        Ok(vk::SurfaceCapabilitiesKHR::default()),
        Ok(Vec::new()),
        Err(vk::Result::ERROR_OUT_OF_DEVICE_MEMORY),
    )
    .is_none());
}
