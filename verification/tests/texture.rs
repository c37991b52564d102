use ash::vk;
use gpu_allocator::AllocationError;
use goldfish::destruction::{Allocation, VulkanDestructor};
use goldfish::device::VulkanDevice;
use goldfish::error::ResourceError;
use goldfish::physical_device::{
    DepthFormat, DepthFormatSupport, PhysicalDeviceCandidate, PhysicalDeviceProperties,
};
use goldfish::queue_family::QueueFamily;
use goldfish::swapchain::SwapchainDetails;
use goldfish::texture::{
    translate_usage, AllocationCreateDesc, BindImageMemoryInfo, BorderColor, Extent3D, Filter,
    ImageAspect, ImageCreateInfo, ImageCreation, ImageFormat, ImageLayout, ImageSubresourceRange,
    ImageTiling, ImageType, ImageViewCreateInfo, ImageViewType, MemoryLocation, MemoryRequirements,
    Pending, SamplerAddressMode, SamplerCreateInfo, SamplerMipmapMode, SharingMode, TextureFormat,
    TextureUsage, VulkanTexture,
};
use std::collections::hash_map::DefaultHasher;
use std::hash::{Hash, Hasher};

fn device() -> VulkanDevice {
    let bit = vk::FormatFeatureFlags::DEPTH_STENCIL_ATTACHMENT.as_raw();
    VulkanDevice::new(&vec![PhysicalDeviceCandidate {
        handle: 1,
        properties: PhysicalDeviceProperties {
            device_type: vk::PhysicalDeviceType::DISCRETE_GPU.as_raw(),
            max_image_dimension_2d: 4096,
        },
        queue_families: vec![QueueFamily {
            queue_flags: (vk::QueueFlags::GRAPHICS | vk::QueueFlags::COMPUTE).as_raw(),
            present_support: true,
        }],
        swapchain_support: Some(SwapchainDetails {
            capabilities: vk::SurfaceCapabilitiesKHR::default(),
            surface_formats: Vec::new(),
            present_modes: Vec::new(),
        }),
        depth_support: DepthFormatSupport {
            d32_sfloat_s8_uint: 0,
            d32_sfloat: bit,
            d24_unorm_s8_uint: bit,
            d16_unorm_s8_uint: 0,
            d16_unorm: 0,
        },
    }])
    .unwrap()
}

fn usage(attachment: bool, sampled: bool) -> TextureUsage {
    TextureUsage { attachment, sampled, transfer_src: false, transfer_dst: false, storage: false }
}

fn sampled() -> TextureUsage {
    usage(false, true)
}

fn attachment() -> TextureUsage {
    usage(true, false)
}

fn begin(format: TextureFormat, usage: TextureUsage) -> Pending<ImageCreation> {
    device().create_texture(640, 480, format, usage).unwrap()
}

fn texture(image: u64, sampler: u64, image_view: u64) -> VulkanTexture {
    VulkanTexture {
        width: 1,
        height: 1,
        image,
        sampler,
        image_view,
        subresource_range: ImageSubresourceRange {
            aspect_mask: ImageAspect::Color,
            base_mip_level: 0,
            level_count: 1,
            base_array_layer: 0,
            layer_count: 1,
        },
        allocation: Allocation { memory: 1, offset: 0, size: 4 },
        format: TextureFormat::Rgba8,
        usage: sampled(),
    }
}

fn hash_of(texture: &VulkanTexture) -> u64 {
    let mut hasher = DefaultHasher::new();
    texture.hash(&mut hasher);
    hasher.finish()
}

#[test]
fn depth_attachment_that_is_sampled_gets_depth_stencil_usage() {
    let wanted = sampled().union(attachment());
    let flags = vk::ImageUsageFlags::from_raw(translate_usage(wanted, TextureFormat::Depth));
    assert!(flags.contains(vk::ImageUsageFlags::DEPTH_STENCIL_ATTACHMENT));
    assert!(flags.contains(vk::ImageUsageFlags::SAMPLED));
    assert!(!flags.contains(vk::ImageUsageFlags::COLOR_ATTACHMENT));
    assert_eq!(
        flags,
        vk::ImageUsageFlags::DEPTH_STENCIL_ATTACHMENT | vk::ImageUsageFlags::SAMPLED
    );
    assert_eq!(translate_usage(wanted, TextureFormat::Depth), 0x24);

    let pending = begin(TextureFormat::Depth, wanted);
    assert_eq!(pending.create_info().usage, 0x24);
    let view = pending
        .image_created(Ok(1))
        .unwrap()
        .requirements(MemoryRequirements { size: 16, alignment: 4, memory_type_bits: 1 })
        .allocated(Ok(Allocation { memory: 2, offset: 0, size: 16 }))
        .unwrap()
        .bound(Ok(()))
        .unwrap()
        .sampler_created(Ok(3))
        .unwrap();
    assert_eq!(view.create_info().subresource_range.aspect_mask, ImageAspect::Depth);
}

#[test]
fn colour_attachment_gets_colour_usage() {
    let flags = vk::ImageUsageFlags::from_raw(translate_usage(attachment(), TextureFormat::Rgba8));
    assert_eq!(flags, vk::ImageUsageFlags::COLOR_ATTACHMENT);
    let cube = vk::ImageUsageFlags::from_raw(translate_usage(attachment(), TextureFormat::CubemapRgba16));
    assert_eq!(cube, vk::ImageUsageFlags::COLOR_ATTACHMENT);
}

#[test]
fn every_use_sets_its_own_flag() {
    let all = TextureUsage {
        attachment: true,
        sampled: true,
        transfer_src: true,
        transfer_dst: true,
        storage: true,
    };
    assert_eq!(
        vk::ImageUsageFlags::from_raw(translate_usage(all, TextureFormat::Bgra8)),
        vk::ImageUsageFlags::COLOR_ATTACHMENT
            | vk::ImageUsageFlags::SAMPLED
            | vk::ImageUsageFlags::TRANSFER_SRC
            | vk::ImageUsageFlags::TRANSFER_DST
            | vk::ImageUsageFlags::STORAGE
    );
    assert_eq!(translate_usage(all, TextureFormat::Bgra8), 0x1f);
    assert_eq!(translate_usage(all, TextureFormat::Depth), 0x2f);
    assert_eq!(translate_usage(TextureUsage::empty(), TextureFormat::Depth), 0);
    let mut one = TextureUsage::empty();
    one.transfer_src = true;
    assert_eq!(translate_usage(one, TextureFormat::Rgba8), vk::ImageUsageFlags::TRANSFER_SRC.as_raw());
    one = TextureUsage::empty();
    one.transfer_dst = true;
    assert_eq!(translate_usage(one, TextureFormat::Rgba8), vk::ImageUsageFlags::TRANSFER_DST.as_raw());
    one = TextureUsage::empty();
    one.storage = true;
    assert_eq!(translate_usage(one, TextureFormat::Rgba8), vk::ImageUsageFlags::STORAGE.as_raw());
}

#[test]
fn usage_sets_unite_and_contain() {
    let both = sampled().union(attachment());
    assert_eq!(both, usage(true, true));
    assert!(both.contains(sampled()));
    assert!(both.contains(attachment()));
    assert!(both.contains(TextureUsage::empty()));
    assert!(!sampled().contains(attachment()));
    assert!(!sampled().contains(both));
}

#[test]
fn cubemap_has_six_layers_and_a_cube_view() {
    let pending = begin(TextureFormat::CubemapRgba8, sampled());
    assert_eq!(
        pending.create_info(),
        ImageCreateInfo {
            cube_compatible: true,
            image_type: ImageType::Type2d,
            format: ImageFormat::R8G8B8A8Unorm,
            extent: Extent3D { width: 640, height: 480, depth: 1 },
            mip_levels: 1,
            array_layers: 6,
            samples: 1,
            tiling: ImageTiling::Optimal,
            usage: vk::ImageUsageFlags::SAMPLED.as_raw(),
            sharing_mode: SharingMode::Exclusive,
            initial_layout: ImageLayout::Undefined,
        }
    );
    let view = pending
        .image_created(Ok(11))
        .unwrap()
        .requirements(MemoryRequirements { size: 16, alignment: 4, memory_type_bits: 1 })
        .allocated(Ok(Allocation { memory: 2, offset: 0, size: 16 }))
        .unwrap()
        .bound(Ok(()))
        .unwrap()
        .sampler_created(Ok(3))
        .unwrap();
    assert_eq!(
        view.create_info(),
        ImageViewCreateInfo {
            image: 11,
            view_type: ImageViewType::Cube,
            format: ImageFormat::R8G8B8A8Unorm,
            subresource_range: ImageSubresourceRange {
                aspect_mask: ImageAspect::Color,
                base_mip_level: 0,
                level_count: 1,
                base_array_layer: 0,
                layer_count: 6,
            },
        }
    );
    assert!(TextureFormat::CubemapRgba8.is_cubemap());
    assert!(TextureFormat::CubemapRgba16.is_cubemap());
}

#[test]
fn other_formats_have_one_layer_and_a_flat_view() {
    for format in [TextureFormat::Rgba8, TextureFormat::Rgba16, TextureFormat::Bgra8, TextureFormat::Depth] {
        assert!(!format.is_cubemap());
        let pending = begin(format, sampled());
        let info = pending.create_info();
        assert_eq!(info.array_layers, 1);
        assert!(!info.cube_compatible);
        let view = pending
            .image_created(Ok(11))
            .unwrap()
            .requirements(MemoryRequirements { size: 16, alignment: 4, memory_type_bits: 1 })
            .allocated(Ok(Allocation { memory: 2, offset: 0, size: 16 }))
            .unwrap()
            .bound(Ok(()))
            .unwrap()
            .sampler_created(Ok(3))
            .unwrap();
        assert_eq!(view.create_info().view_type, ImageViewType::Type2d);
        assert_eq!(view.create_info().subresource_range.layer_count, 1);
    }
}

#[test]
fn depth_texture_has_the_depth_format_of_the_device() {
    let d = device();
    assert_eq!(TextureFormat::Depth.to_vk(&d), ImageFormat::Depth(DepthFormat::D32Sfloat));
    assert_eq!(TextureFormat::Rgba8.to_vk(&d), ImageFormat::R8G8B8A8Unorm);
    assert_eq!(TextureFormat::CubemapRgba8.to_vk(&d), ImageFormat::R8G8B8A8Unorm);
    assert_eq!(TextureFormat::Rgba16.to_vk(&d), ImageFormat::R16G16B16A16Sfloat);
    assert_eq!(TextureFormat::CubemapRgba16.to_vk(&d), ImageFormat::R16G16B16A16Sfloat);
    assert_eq!(TextureFormat::Bgra8.to_vk(&d), ImageFormat::B8G8R8A8Unorm);
    assert_eq!(
        TextureFormat::Depth.to_image_format(DepthFormat::D16Unorm),
        ImageFormat::Depth(DepthFormat::D16Unorm)
    );
    assert_eq!(
        begin(TextureFormat::Depth, attachment()).create_info().format,
        ImageFormat::Depth(DepthFormat::D32Sfloat)
    );
}

#[test]
fn texture_is_made_step_by_step() {
    let wanted = TextureUsage {
        attachment: false,
        sampled: true,
        transfer_src: false,
        transfer_dst: true,
        storage: false,
    };
    let pending = begin(TextureFormat::Rgba16, wanted);
    assert_eq!(pending.stage().request.width, 640);
    assert_eq!(pending.stage().request.height, 480);
    assert_eq!(pending.stage().request.depth_format, DepthFormat::D32Sfloat);

    let pending = pending.image_created(Ok(0x1a)).unwrap();
    assert_eq!(pending.image(), 0x1a);

    let requirements = MemoryRequirements { size: 4096, alignment: 256, memory_type_bits: 0b101 };
    let pending = pending.requirements(requirements);
    assert_eq!(
        pending.allocation_desc(),
        AllocationCreateDesc {
            name: "Texture",
            requirements,
            location: MemoryLocation::GpuOnly,
            linear: false,
        }
    );

    let pending = pending.allocated(Ok(Allocation { memory: 0x3e, offset: 512, size: 4096 })).unwrap();
    assert_eq!(
        pending.bind_info(),
        BindImageMemoryInfo { image: 0x1a, memory: 0x3e, offset: 512 }
    );

    let pending = pending.bound(Ok(())).unwrap();
    assert_eq!(
        pending.create_info(),
        SamplerCreateInfo {
            mag_filter: Filter::Linear,
            min_filter: Filter::Linear,
            mipmap_mode: SamplerMipmapMode::Linear,
            address_mode_u: SamplerAddressMode::ClampToEdge,
            address_mode_v: SamplerAddressMode::ClampToEdge,
            address_mode_w: SamplerAddressMode::ClampToEdge,
            mip_lod_bias: 0,
            anisotropy_enable: false,
            max_anisotropy: 1,
            min_lod: 0,
            max_lod: 0,
            border_color: BorderColor::FloatOpaqueWhite,
        }
    );

    let pending = pending.sampler_created(Ok(0x5a)).unwrap();
    assert_eq!(pending.create_info().image, 0x1a);
    assert_eq!(pending.create_info().format, ImageFormat::R16G16B16A16Sfloat);

    let texture = pending.view_created(Ok(0x7e)).unwrap();
    assert_eq!(texture.width, 640);
    assert_eq!(texture.height, 480);
    assert_eq!(texture.image, 0x1a);
    assert_eq!(texture.sampler, 0x5a);
    assert_eq!(texture.image_view, 0x7e);
    assert_eq!(texture.allocation, Allocation { memory: 0x3e, offset: 512, size: 4096 });
    assert_eq!(texture.format, TextureFormat::Rgba16);
    assert_eq!(texture.usage, wanted);
    assert_eq!(
        texture.subresource_range,
        ImageSubresourceRange {
            aspect_mask: ImageAspect::Color,
            base_mip_level: 0,
            level_count: 1,
            base_array_layer: 0,
            layer_count: 1,
        }
    );
}

#[test]
fn every_failed_call_ends_the_creation() {
    let requirements = MemoryRequirements { size: 16, alignment: 4, memory_type_bits: 1 };
    let allocation = || Allocation { memory: 2, offset: 0, size: 16 };

    let r = begin(TextureFormat::Rgba8, sampled()).image_created(Err(vk::Result::ERROR_OUT_OF_DEVICE_MEMORY));
    assert!(matches!(
        r,
        Err(ResourceError::ImageCreationFailed(vk::Result::ERROR_OUT_OF_DEVICE_MEMORY))
    ));

    let r = begin(TextureFormat::Rgba8, sampled())
        .image_created(Ok(1))
        .unwrap()
        .requirements(requirements)
        .allocated(Err(AllocationError::OutOfMemory));
    assert!(matches!(r, Err(ResourceError::AllocationFailed(AllocationError::OutOfMemory))));

    let r = begin(TextureFormat::Rgba8, sampled())
        .image_created(Ok(1))
        .unwrap()
        .requirements(requirements)
        .allocated(Ok(allocation()))
        .unwrap()
        .bound(Err(vk::Result::ERROR_OUT_OF_HOST_MEMORY));
    assert!(matches!(
        r,
        Err(ResourceError::BindImageMemoryFailed(vk::Result::ERROR_OUT_OF_HOST_MEMORY))
    ));

    let r = begin(TextureFormat::Rgba8, sampled())
        .image_created(Ok(1))
        .unwrap()
        .requirements(requirements)
        .allocated(Ok(allocation()))
        .unwrap()
        .bound(Ok(()))
        .unwrap()
        .sampler_created(Err(vk::Result::ERROR_TOO_MANY_OBJECTS));
    assert!(matches!(
        r,
        Err(ResourceError::SamplerCreationFailed(vk::Result::ERROR_TOO_MANY_OBJECTS))
    ));

    let r = begin(TextureFormat::Rgba8, sampled())
        .image_created(Ok(1))
        .unwrap()
        .requirements(requirements)
        .allocated(Ok(allocation()))
        .unwrap()
        .bound(Ok(()))
        .unwrap()
        .sampler_created(Ok(3))
        .unwrap()
        .view_created(Err(vk::Result::ERROR_UNKNOWN));
    assert!(matches!(r, Err(ResourceError::ImageViewCreationFailed(vk::Result::ERROR_UNKNOWN))));
}

#[test]
fn nothing_is_created_once_the_allocator_is_gone() {
    let mut d = device();
    d.destroy().unwrap();
    assert!(matches!(
        d.create_texture(1, 1, TextureFormat::Rgba8, sampled()),
        Err(ResourceError::AllocatorUnavailable)
    ));
}

#[test]
fn textures_with_the_same_three_handles_are_equal() {
    let a = texture(1, 2, 3);
    let mut b = texture(1, 2, 3);
    b.width = 99;
    b.height = 7;
    b.format = TextureFormat::Depth;
    b.usage = attachment();
    b.allocation = Allocation { memory: 77, offset: 8, size: 64 };
    b.subresource_range.aspect_mask = ImageAspect::Depth;
    assert!(a == b);
    assert!(b == a);
    assert_eq!(hash_of(&a), hash_of(&b));
}

#[test]
fn one_handle_that_differs_makes_textures_unequal() {
    let a = texture(1, 2, 3);
    assert!(a != texture(9, 2, 3));
    assert!(a != texture(1, 9, 3));
    assert!(a != texture(1, 2, 9));
    assert!(a != texture(3, 2, 1));
    assert_ne!(hash_of(&a), hash_of(&texture(1, 2, 9)));
}

#[test]
fn destroying_a_texture_queues_one_batch_of_four() {
    let mut d = device();
    d.queue_destruction(vec![VulkanDestructor::ShaderModule(50)]);
    let mut t = texture(0x1a, 0x5a, 0x7e);
    t.allocation = Allocation { memory: 0x3e, offset: 512, size: 4096 };
    d.destroy_texture(t);
    assert_eq!(d.pending_batches(), 2);
    let released = d.wait_idle(Ok(())).unwrap();
    assert_eq!(released.len(), 2);
    assert_eq!(released[0], vec![VulkanDestructor::ShaderModule(50)]);
    assert_eq!(
        released[1],
        vec![
            VulkanDestructor::Image(0x1a),
            VulkanDestructor::ImageView(0x7e),
            VulkanDestructor::Sampler(0x5a),
            VulkanDestructor::Allocation(Allocation { memory: 0x3e, offset: 512, size: 4096 }),
        ]
    );
}

#[test]
fn destroyed_texture_is_not_freed_by_a_failed_idle_wait() {
    let mut d = device();
    d.destroy_texture(texture(1, 2, 3));
    assert!(d.wait_idle(Err(vk::Result::ERROR_DEVICE_LOST)).is_err());
    assert_eq!(d.pending_batches(), 1);
    assert_eq!(d.wait_idle(Ok(())).unwrap().len(), 1);
}

#[test]
fn resource_errors_describe_themselves() {
    let code = vk::Result::ERROR_UNKNOWN;
    assert_eq!(ResourceError::AllocatorUnavailable.message(), "The allocator was destroyed before!");
    assert_eq!(ResourceError::ImageCreationFailed(code).message(), "Failed to create image!");
    assert_eq!(
        ResourceError::AllocationFailed(AllocationError::OutOfMemory).message(),
        "Failed to allocate memory!"
    );
    assert_eq!(ResourceError::BindImageMemoryFailed(code).message(), "Failed to bind image memory!");
    assert_eq!(ResourceError::SamplerCreationFailed(code).message(), "Failed to create sampler!");
    assert_eq!(ResourceError::ImageViewCreationFailed(code).message(), "Failed to create image view!");
    assert_eq!(ResourceError::ShaderModuleCreationFailed(code).message(), "Failed to create shader!");
}
