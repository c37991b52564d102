//! Textures: what each API object of a texture is created with, the order
//! in which they are created, and how a texture is given up.

use vstd::prelude::*;
use vstd::std_specs::cmp::PartialEqSpec;
use crate::destruction::{Allocation, VulkanDestructor};
use crate::device::VulkanDevice;
use crate::error::ResourceError;
use crate::physical_device::DepthFormat;
use crate::vk::{has_flags, image_usage_color_attachment_bit,
    image_usage_depth_stencil_attachment_bit, image_usage_sampled_bit, image_usage_storage_bit,
    image_usage_transfer_dst_bit, image_usage_transfer_src_bit, IMAGE_USAGE_COLOR_ATTACHMENT_BIT,
    IMAGE_USAGE_DEPTH_STENCIL_ATTACHMENT_BIT, IMAGE_USAGE_SAMPLED_BIT, IMAGE_USAGE_STORAGE_BIT,
    IMAGE_USAGE_TRANSFER_DST_BIT, IMAGE_USAGE_TRANSFER_SRC_BIT};

verus! {

/// The formats in which the renderer keeps textures.
#[derive(Clone, Copy, Debug, PartialEq, Eq, Structural)]
pub enum TextureFormat {
    Rgba8,
    Rgba16,
    Bgra8,
    Depth,
    CubemapRgba8,
    CubemapRgba16,
}

/// The formats of the API that textures are created in.
#[derive(Clone, Copy, Debug, PartialEq, Eq, Structural)]
pub enum ImageFormat {
    R8G8B8A8Unorm,
    R16G16B16A16Sfloat,
    B8G8R8A8Unorm,
    Depth(DepthFormat),
}

impl TextureFormat {
    pub open spec fn spec_is_cubemap(self) -> bool {
        self is CubemapRgba8 || self is CubemapRgba16
    }

    /// Whether a texture of this format has the six faces of a cube.
    #[verifier::when_used_as_spec(spec_is_cubemap)]
    pub fn is_cubemap(self) -> (r: bool)
        ensures
            r == self.spec_is_cubemap(),
    {
        match self {
            TextureFormat::CubemapRgba8 | TextureFormat::CubemapRgba16 => true,
            _ => false,
        }
    }

    pub open spec fn spec_to_vk(self, depth_format: DepthFormat) -> ImageFormat {
        match self {
            TextureFormat::Rgba8 | TextureFormat::CubemapRgba8 => ImageFormat::R8G8B8A8Unorm,
            TextureFormat::Rgba16 | TextureFormat::CubemapRgba16 => ImageFormat::R16G16B16A16Sfloat,
            TextureFormat::Bgra8 => ImageFormat::B8G8R8A8Unorm,
            TextureFormat::Depth => ImageFormat::Depth(depth_format),
        }
    }

    /// The format of the API for this format where depth textures have the
    /// format `depth_format`. A cubemap has the format of its faces.
    pub fn to_image_format(self, depth_format: DepthFormat) -> (r: ImageFormat)
        ensures
            r == self.spec_to_vk(depth_format),
    {
        match self {
            TextureFormat::Rgba8 | TextureFormat::CubemapRgba8 => ImageFormat::R8G8B8A8Unorm,
            TextureFormat::Rgba16 | TextureFormat::CubemapRgba16 => ImageFormat::R16G16B16A16Sfloat,
            TextureFormat::Bgra8 => ImageFormat::B8G8R8A8Unorm,
            TextureFormat::Depth => ImageFormat::Depth(depth_format),
        }
    }

    /// The format of the API for this format on `device`: a depth texture
    /// has the depth-stencil format that the device chose.
    pub fn to_vk(self, device: &VulkanDevice) -> (r: ImageFormat)
        ensures
            r == self.spec_to_vk(device.description().depth_format),
    {
        self.to_image_format(device.depth_format())
    }
}

/// What a texture is going to be used for: a set of five uses.
#[derive(Clone, Copy, Debug, PartialEq, Eq, Structural)]
pub struct TextureUsage {
    pub attachment: bool,
    pub sampled: bool,
    pub transfer_src: bool,
    pub transfer_dst: bool,
    pub storage: bool,
}

impl TextureUsage {
    pub open spec fn spec_empty() -> TextureUsage {
        TextureUsage {
            attachment: false,
            sampled: false,
            transfer_src: false,
            transfer_dst: false,
            storage: false,
        }
    }

    /// No use at all.
    #[verifier::when_used_as_spec(spec_empty)]
    pub fn empty() -> (r: TextureUsage)
        ensures
            r == TextureUsage::spec_empty(),
    {
        TextureUsage {
            attachment: false,
            sampled: false,
            transfer_src: false,
            transfer_dst: false,
            storage: false,
        }
    }

    pub open spec fn spec_union(self, other: TextureUsage) -> TextureUsage {
        TextureUsage {
            attachment: self.attachment || other.attachment,
            sampled: self.sampled || other.sampled,
            transfer_src: self.transfer_src || other.transfer_src,
            transfer_dst: self.transfer_dst || other.transfer_dst,
            storage: self.storage || other.storage,
        }
    }

    /// Every use of either set.
    #[verifier::when_used_as_spec(spec_union)]
    pub fn union(self, other: TextureUsage) -> (r: TextureUsage)
        ensures
            r == self.spec_union(other),
    {
        TextureUsage {
            attachment: self.attachment || other.attachment,
            sampled: self.sampled || other.sampled,
            transfer_src: self.transfer_src || other.transfer_src,
            transfer_dst: self.transfer_dst || other.transfer_dst,
            storage: self.storage || other.storage,
        }
    }

    pub open spec fn spec_contains(self, other: TextureUsage) -> bool {
        &&& other.attachment ==> self.attachment
        &&& other.sampled ==> self.sampled
        &&& other.transfer_src ==> self.transfer_src
        &&& other.transfer_dst ==> self.transfer_dst
        &&& other.storage ==> self.storage
    }

    /// Whether every use of `other` is a use of this set.
    #[verifier::when_used_as_spec(spec_contains)]
    pub fn contains(self, other: TextureUsage) -> (r: bool)
        ensures
            r == self.spec_contains(other),
    {
        (!other.attachment || self.attachment) && (!other.sampled || self.sampled) && (
        !other.transfer_src || self.transfer_src) && (!other.transfer_dst || self.transfer_dst)
            && (!other.storage || self.storage)
    }
}

/// `flags` with `bit` added where `wanted` holds.
pub open spec fn with_flag(flags: u32, wanted: bool, bit: u32) -> u32 {
    if wanted {
        flags | bit
    } else {
        flags
    }
}

/// The attachment bit of a format: depth-stencil for a depth texture, colour
/// for every other.
pub open spec fn attachment_bit(format: TextureFormat) -> u32 {
    if format is Depth {
        IMAGE_USAGE_DEPTH_STENCIL_ATTACHMENT_BIT
    } else {
        IMAGE_USAGE_COLOR_ATTACHMENT_BIT
    }
}

/// The `VkImageUsageFlags` of a texture with the given uses and format.
pub open spec fn image_usage_flags(usage: TextureUsage, format: TextureFormat) -> u32 {
    let attachment = with_flag(0, usage.attachment, attachment_bit(format));
    let sampled = with_flag(attachment, usage.sampled, IMAGE_USAGE_SAMPLED_BIT);
    let transfer_src = with_flag(sampled, usage.transfer_src, IMAGE_USAGE_TRANSFER_SRC_BIT);
    let transfer_dst = with_flag(transfer_src, usage.transfer_dst, IMAGE_USAGE_TRANSFER_DST_BIT);
    with_flag(transfer_dst, usage.storage, IMAGE_USAGE_STORAGE_BIT)
}

/// Translates the uses of a texture into the usage flags of its image.
pub fn translate_usage(usage: TextureUsage, format: TextureFormat) -> (flags: u32)
    ensures
        flags == image_usage_flags(usage, format),
{
    let mut flags: u32 = 0;
    if usage.attachment {
        match format {
            TextureFormat::Depth => {
                flags = flags | image_usage_depth_stencil_attachment_bit();
            },
            _ => {
                flags = flags | image_usage_color_attachment_bit();
            },
        }
    }
    if usage.sampled {
        flags = flags | image_usage_sampled_bit();
    }
    if usage.transfer_src {
        flags = flags | image_usage_transfer_src_bit();
    }
    if usage.transfer_dst {
        flags = flags | image_usage_transfer_dst_bit();
    }
    if usage.storage {
        flags = flags | image_usage_storage_bit();
    }
    flags
}

proof fn lemma_usage_bits(a: u32, s: u32, ts: u32, td: u32, st: u32)
    by (bit_vector)
    requires
        a == 0 || a == 0x10 || a == 0x20,
        s == 0 || s == 0x4,
        ts == 0 || ts == 0x1,
        td == 0 || td == 0x2,
        st == 0 || st == 0x8,
    ensures
        ((((0u32 | a) | s) | ts) | td) | st == a + s + ts + td + st,
        ((((((0u32 | a) | s) | ts) | td) | st) & 0x20 == 0x20) <==> a == 0x20,
        ((((((0u32 | a) | s) | ts) | td) | st) & 0x10 == 0x10) <==> a == 0x10,
        ((((((0u32 | a) | s) | ts) | td) | st) & 0x4 == 0x4) <==> s == 0x4,
        ((((((0u32 | a) | s) | ts) | td) | st) & 0x1 == 0x1) <==> ts == 0x1,
        ((((((0u32 | a) | s) | ts) | td) | st) & 0x2 == 0x2) <==> td == 0x2,
        ((((((0u32 | a) | s) | ts) | td) | st) & 0x8 == 0x8) <==> st == 0x8,
{
}

proof fn lemma_or_zero(x: u32)
    by (bit_vector)
    ensures
        x | 0 == x,
{
}

/// Which usage flags a texture gets.
///
/// The image is a depth-stencil attachment exactly where an attachment of
/// depth format is asked for, and a colour attachment exactly where an
/// attachment of another format is asked for. Each other use sets its own
/// flag, and no flag is set that was not asked for.
pub proof fn lemma_image_usage_flags(usage: TextureUsage, format: TextureFormat)
    ensures
        has_flags(image_usage_flags(usage, format), IMAGE_USAGE_DEPTH_STENCIL_ATTACHMENT_BIT) <==> (
        usage.attachment && format is Depth),
        has_flags(image_usage_flags(usage, format), IMAGE_USAGE_COLOR_ATTACHMENT_BIT) <==> (
        usage.attachment && !(format is Depth)),
        has_flags(image_usage_flags(usage, format), IMAGE_USAGE_SAMPLED_BIT) <==> usage.sampled,
        has_flags(image_usage_flags(usage, format), IMAGE_USAGE_TRANSFER_SRC_BIT)
            <==> usage.transfer_src,
        has_flags(image_usage_flags(usage, format), IMAGE_USAGE_TRANSFER_DST_BIT)
            <==> usage.transfer_dst,
        has_flags(image_usage_flags(usage, format), IMAGE_USAGE_STORAGE_BIT) <==> usage.storage,
        image_usage_flags(usage, format) == (if usage.attachment {
            attachment_bit(format)
        } else {
            0
        }) + (if usage.sampled {
            IMAGE_USAGE_SAMPLED_BIT
        } else {
            0
        }) + (if usage.transfer_src {
            IMAGE_USAGE_TRANSFER_SRC_BIT
        } else {
            0
        }) + (if usage.transfer_dst {
            IMAGE_USAGE_TRANSFER_DST_BIT
        } else {
            0
        }) + (if usage.storage {
            IMAGE_USAGE_STORAGE_BIT
        } else {
            0
        }),
{
    let a: u32 = if usage.attachment { attachment_bit(format) } else { 0 };
    let s: u32 = if usage.sampled { IMAGE_USAGE_SAMPLED_BIT } else { 0 };
    let ts: u32 = if usage.transfer_src { IMAGE_USAGE_TRANSFER_SRC_BIT } else { 0 };
    let td: u32 = if usage.transfer_dst { IMAGE_USAGE_TRANSFER_DST_BIT } else { 0 };
    let st: u32 = if usage.storage { IMAGE_USAGE_STORAGE_BIT } else { 0 };
    let f1 = 0u32 | a;
    let f2 = f1 | s;
    let f3 = f2 | ts;
    let f4 = f3 | td;
    lemma_or_zero(0u32);
    lemma_or_zero(f1);
    lemma_or_zero(f2);
    lemma_or_zero(f3);
    lemma_or_zero(f4);
    assert(with_flag(0, usage.attachment, attachment_bit(format)) == f1);
    assert(with_flag(f1, usage.sampled, IMAGE_USAGE_SAMPLED_BIT) == f2);
    assert(with_flag(f2, usage.transfer_src, IMAGE_USAGE_TRANSFER_SRC_BIT) == f3);
    assert(with_flag(f3, usage.transfer_dst, IMAGE_USAGE_TRANSFER_DST_BIT) == f4);
    assert(image_usage_flags(usage, format) == f4 | st);
    lemma_usage_bits(a, s, ts, td, st);
}

/// The size of an image in texels.
#[derive(Clone, Copy, Debug, PartialEq, Eq, Structural)]
pub struct Extent3D {
    pub width: u32,
    pub height: u32,
    pub depth: u32,
}

#[derive(Clone, Copy, Debug, PartialEq, Eq, Structural)]
pub enum ImageType {
    Type1d,
    Type2d,
    Type3d,
}

#[derive(Clone, Copy, Debug, PartialEq, Eq, Structural)]
pub enum ImageTiling {
    Optimal,
    Linear,
}

#[derive(Clone, Copy, Debug, PartialEq, Eq, Structural)]
pub enum SharingMode {
    Exclusive,
    Concurrent,
}

#[derive(Clone, Copy, Debug, PartialEq, Eq, Structural)]
pub enum ImageLayout {
    Undefined,
    Preinitialized,
}

/// What the image of a texture is created with.
#[derive(Clone, Copy, Debug, PartialEq, Eq, Structural)]
pub struct ImageCreateInfo {
    /// Whether cube views can be made of the image.
    pub cube_compatible: bool,
    pub image_type: ImageType,
    pub format: ImageFormat,
    pub extent: Extent3D,
    pub mip_levels: u32,
    pub array_layers: u32,
    /// How many samples each texel has.
    pub samples: u32,
    pub tiling: ImageTiling,
    /// The image's `VkImageUsageFlags`.
    pub usage: u32,
    pub sharing_mode: SharingMode,
    pub initial_layout: ImageLayout,
}

/// What the allocator is told of the memory that a resource needs.
#[derive(Clone, Copy, Debug, PartialEq, Eq, Structural)]
pub struct MemoryRequirements {
    pub size: u64,
    pub alignment: u64,
    pub memory_type_bits: u32,
}

/// Where the allocator is to place an allocation.
#[derive(Clone, Copy, Debug, PartialEq, Eq, Structural)]
pub enum MemoryLocation {
    Unknown,
    GpuOnly,
    CpuToGpu,
    GpuToCpu,
}

/// What an allocation is asked for with.
#[derive(Clone, Copy, Debug, PartialEq, Eq)]
pub struct AllocationCreateDesc {
    pub name: &'static str,
    pub requirements: MemoryRequirements,
    pub location: MemoryLocation,
    /// Whether the resource is a buffer or an image of linear tiling.
    pub linear: bool,
}

/// The call that binds an image to its memory.
#[derive(Clone, Copy, Debug, PartialEq, Eq, Structural)]
pub struct BindImageMemoryInfo {
    pub image: u64,
    pub memory: u64,
    pub offset: u64,
}

#[derive(Clone, Copy, Debug, PartialEq, Eq, Structural)]
pub enum Filter {
    Nearest,
    Linear,
}

#[derive(Clone, Copy, Debug, PartialEq, Eq, Structural)]
pub enum SamplerMipmapMode {
    Nearest,
    Linear,
}

#[derive(Clone, Copy, Debug, PartialEq, Eq, Structural)]
pub enum SamplerAddressMode {
    Repeat,
    MirroredRepeat,
    ClampToEdge,
    ClampToBorder,
}

#[derive(Clone, Copy, Debug, PartialEq, Eq, Structural)]
pub enum BorderColor {
    FloatTransparentBlack,
    FloatOpaqueBlack,
    FloatOpaqueWhite,
}

/// What the sampler of a texture is created with. The level-of-detail
/// values and the anisotropy are whole numbers.
#[derive(Clone, Copy, Debug, PartialEq, Eq, Structural)]
pub struct SamplerCreateInfo {
    pub mag_filter: Filter,
    pub min_filter: Filter,
    pub mipmap_mode: SamplerMipmapMode,
    pub address_mode_u: SamplerAddressMode,
    pub address_mode_v: SamplerAddressMode,
    pub address_mode_w: SamplerAddressMode,
    pub mip_lod_bias: i32,
    pub anisotropy_enable: bool,
    pub max_anisotropy: u32,
    pub min_lod: u32,
    pub max_lod: u32,
    pub border_color: BorderColor,
}

#[derive(Clone, Copy, Debug, PartialEq, Eq, Structural)]
pub enum ImageAspect {
    Color,
    Depth,
}

/// The part of an image that a view shows.
#[derive(Clone, Copy, Debug, PartialEq, Eq, Structural)]
pub struct ImageSubresourceRange {
    pub aspect_mask: ImageAspect,
    pub base_mip_level: u32,
    pub level_count: u32,
    pub base_array_layer: u32,
    pub layer_count: u32,
}

#[derive(Clone, Copy, Debug, PartialEq, Eq, Structural)]
pub enum ImageViewType {
    Type2d,
    Cube,
}

/// What the view of a texture is created with.
#[derive(Clone, Copy, Debug, PartialEq, Eq, Structural)]
pub struct ImageViewCreateInfo {
    pub image: u64,
    pub view_type: ImageViewType,
    pub format: ImageFormat,
    pub subresource_range: ImageSubresourceRange,
}

/// What was asked for when the creation of a texture began, and the
/// depth-stencil format of the device that it began on.
#[derive(Clone, Copy, Debug, PartialEq, Eq, Structural)]
pub struct TextureRequest {
    pub width: u32,
    pub height: u32,
    pub format: TextureFormat,
    pub usage: TextureUsage,
    pub depth_format: DepthFormat,
}

/// How many array layers a texture has: the six faces of a cube, or one.
pub open spec fn layer_count(format: TextureFormat) -> u32 {
    if format.spec_is_cubemap() {
        6
    } else {
        1
    }
}

/// The image of a texture: two-dimensional, one mip level, one sample per
/// texel, optimal tiling, used by one queue family at a time.
pub open spec fn image_create_info(request: TextureRequest) -> ImageCreateInfo {
    ImageCreateInfo {
        cube_compatible: request.format.spec_is_cubemap(),
        image_type: ImageType::Type2d,
        format: request.format.spec_to_vk(request.depth_format),
        extent: Extent3D { width: request.width, height: request.height, depth: 1 },
        mip_levels: 1,
        array_layers: layer_count(request.format),
        samples: 1,
        tiling: ImageTiling::Optimal,
        usage: image_usage_flags(request.usage, request.format),
        sharing_mode: SharingMode::Exclusive,
        initial_layout: ImageLayout::Undefined,
    }
}

/// The sampler of every texture: linear filtering both ways and between mip
/// levels, clamped to the edge on all three axes, no bias, no anisotropy,
/// an opaque white border.
pub open spec fn sampler_create_info() -> SamplerCreateInfo {
    SamplerCreateInfo {
        mag_filter: Filter::Linear,
        min_filter: Filter::Linear,
        mipmap_mode: SamplerMipmapMode::Linear,
        address_mode_u: SamplerAddressMode::ClampToEdge,
        address_mode_v: SamplerAddressMode::ClampToEdge,
        address_mode_w: SamplerAddressMode::ClampToEdge,
        mip_lod_bias: 0,
        anisotropy_enable: false,
        max_anisotropy: 1,
        min_lod: 0,
        max_lod: 0,
        border_color: BorderColor::FloatOpaqueWhite,
    }
}

/// The part of the image that the view of a texture shows: the depth aspect
/// of a depth texture and the colour aspect of every other, the one mip
/// level, every array layer.
pub open spec fn subresource_range(format: TextureFormat) -> ImageSubresourceRange {
    ImageSubresourceRange {
        aspect_mask: if format is Depth {
            ImageAspect::Depth
        } else {
            ImageAspect::Color
        },
        base_mip_level: 0,
        level_count: 1,
        base_array_layer: 0,
        layer_count: layer_count(format),
    }
}

/// The view of a texture on `image`: a cube view of a cubemap, a
/// two-dimensional view of every other texture.
pub open spec fn image_view_create_info(request: TextureRequest, image: u64) -> ImageViewCreateInfo {
    ImageViewCreateInfo {
        image,
        view_type: if request.format.spec_is_cubemap() {
            ImageViewType::Cube
        } else {
            ImageViewType::Type2d
        },
        format: request.format.spec_to_vk(request.depth_format),
        subresource_range: subresource_range(request.format),
    }
}

/// A texture: its image, the view and the sampler on it, and the memory
/// that the image is bound to. The texture alone owns that memory until it
/// is destroyed.
#[derive(Debug)]
pub struct VulkanTexture {
    pub width: u32,
    pub height: u32,
    pub image: u64,
    pub sampler: u64,
    pub image_view: u64,
    pub subresource_range: ImageSubresourceRange,
    pub allocation: Allocation,
    pub format: TextureFormat,
    pub usage: TextureUsage,
}

impl VulkanTexture {
    /// Two textures are one resource where image, sampler and view are the
    /// same handles.
    pub open spec fn same_resource(self, other: VulkanTexture) -> bool {
        self.image == other.image && self.sampler == other.sampler && self.image_view
            == other.image_view
    }

    /// The requests that free the texture, as one batch.
    pub open spec fn destruction_batch(self) -> Seq<VulkanDestructor> {
        seq![
            VulkanDestructor::Image(self.image),
            VulkanDestructor::ImageView(self.image_view),
            VulkanDestructor::Sampler(self.sampler),
            VulkanDestructor::Allocation(self.allocation),
        ]
    }
}

impl PartialEq for VulkanTexture {
    fn eq(&self, other: &Self) -> (r: bool) {
        self.image == other.image && self.sampler == other.sampler && self.image_view
            == other.image_view
    }
}

impl Eq for VulkanTexture {

}

impl vstd::std_specs::cmp::PartialEqSpecImpl for VulkanTexture {
    open spec fn obeys_eq_spec() -> bool {
        true
    }

    open spec fn eq_spec(&self, other: &Self) -> bool {
        self.image == other.image && self.sampler == other.sampler && self.image_view
            == other.image_view
    }
}

impl core::hash::Hash for VulkanTexture {
    /// Feeds image, sampler and view to `core::hash::Hash::hash`, and
    /// nothing else: textures that are one resource hash alike.
    #[verifier::external_body]
    fn hash<H: core::hash::Hasher>(&self, state: &mut H) {
        (self.image, self.sampler, self.image_view).hash(state);
    }
}

/// The creation of a texture at the stage `S`: what has been made so far.
///
/// A stage comes only out of the stage before it, so the calls that make a
/// texture cannot be made out of order: the image before its memory is
/// asked for, the memory before the image is bound to it, the binding before
/// the sampler and the view.
#[derive(Debug)]
pub struct Pending<S> {
    stage: S,
}

impl<S> View for Pending<S> {
    type V = S;

    closed spec fn view(&self) -> S {
        self.stage
    }
}

impl<S> Pending<S> {
    /// What has been made so far.
    pub fn stage(&self) -> (stage: &S)
        ensures
            *stage == self@,
    {
        &self.stage
    }
}

/// The image is to be created.
#[derive(Debug, PartialEq, Eq)]
pub struct ImageCreation {
    pub request: TextureRequest,
}

/// The image stands; its memory requirements are to be asked for.
#[derive(Debug, PartialEq, Eq)]
pub struct RequirementsQuery {
    pub request: TextureRequest,
    pub image: u64,
}

/// The memory of the image is to be allocated.
#[derive(Debug, PartialEq, Eq)]
pub struct MemoryAllocation {
    pub request: TextureRequest,
    pub image: u64,
    pub requirements: MemoryRequirements,
}

/// The image is to be bound to its memory.
#[derive(Debug, PartialEq, Eq)]
pub struct MemoryBinding {
    pub request: TextureRequest,
    pub image: u64,
    pub allocation: Allocation,
}

/// The image is bound; the sampler is to be created.
#[derive(Debug, PartialEq, Eq)]
pub struct SamplerCreation {
    pub request: TextureRequest,
    pub image: u64,
    pub allocation: Allocation,
}

/// The view is to be created.
#[derive(Debug, PartialEq, Eq)]
pub struct ViewCreation {
    pub request: TextureRequest,
    pub image: u64,
    pub allocation: Allocation,
    pub sampler: u64,
}

impl Pending<ImageCreation> {
    /// What the image is created with.
    pub fn create_info(&self) -> (info: ImageCreateInfo)
        ensures
            info == image_create_info(self@.request),
    {
        let request = self.stage.request;
        let cubemap = request.format.is_cubemap();
        ImageCreateInfo {
            cube_compatible: cubemap,
            image_type: ImageType::Type2d,
            format: request.format.to_image_format(request.depth_format),
            extent: Extent3D { width: request.width, height: request.height, depth: 1 },
            mip_levels: 1,
            array_layers: if cubemap {
                6
            } else {
                1
            },
            samples: 1,
            tiling: ImageTiling::Optimal,
            usage: translate_usage(request.usage, request.format),
            sharing_mode: SharingMode::Exclusive,
            initial_layout: ImageLayout::Undefined,
        }
    }

    /// Takes in how the creation of the image ended.
    pub fn image_created(self, outcome: Result<u64, ash::vk::Result>) -> (r: Result<
        Pending<RequirementsQuery>,
        ResourceError,
    >)
        ensures
            match r {
                Ok(next) => outcome matches Ok(image) && next@ == (RequirementsQuery {
                    request: self@.request,
                    image,
                }),
                Err(ResourceError::ImageCreationFailed(code)) => outcome matches Err(c) && c
                    == code,
                Err(_) => false,
            },
    {
        match outcome {
            Ok(image) => Ok(
                Pending { stage: RequirementsQuery { request: self.stage.request, image } },
            ),
            Err(code) => Err(ResourceError::ImageCreationFailed(code)),
        }
    }
}

impl Pending<RequirementsQuery> {
    /// The image whose memory requirements are to be asked for.
    pub fn image(&self) -> (image: u64)
        ensures
            image == self@.image,
    {
        self.stage.image
    }

    /// Takes in the memory requirements of the image.
    pub fn requirements(self, requirements: MemoryRequirements) -> (next: Pending<
        MemoryAllocation,
    >)
        ensures
            next@ == (MemoryAllocation {
                request: self@.request,
                image: self@.image,
                requirements,
            }),
    {
        Pending {
            stage: MemoryAllocation {
                request: self.stage.request,
                image: self.stage.image,
                requirements,
            },
        }
    }
}

impl Pending<MemoryAllocation> {
    /// What the memory of the image is asked for with: memory on the GPU,
    /// of the size and alignment that the image requires, for an image of
    /// optimal tiling.
    pub fn allocation_desc(&self) -> (desc: AllocationCreateDesc)
        ensures
            desc.name@ == "Texture"@,
            desc.requirements == self@.requirements,
            desc.location == MemoryLocation::GpuOnly,
            !desc.linear,
    {
        AllocationCreateDesc {
            name: "Texture",
            requirements: self.stage.requirements,
            location: MemoryLocation::GpuOnly,
            linear: false,
        }
    }

    /// Takes in how the allocation ended.
    pub fn allocated(
        self,
        outcome: Result<Allocation, gpu_allocator::AllocationError>,
    ) -> (r: Result<Pending<MemoryBinding>, ResourceError>)
        ensures
            match r {
                Ok(next) => outcome matches Ok(allocation) && next@ == (MemoryBinding {
                    request: self@.request,
                    image: self@.image,
                    allocation,
                }),
                Err(ResourceError::AllocationFailed(error)) => outcome matches Err(e) && e
                    == error,
                Err(_) => false,
            },
    {
        match outcome {
            Ok(allocation) => Ok(
                Pending {
                    stage: MemoryBinding {
                        request: self.stage.request,
                        image: self.stage.image,
                        allocation,
                    },
                },
            ),
            Err(error) => Err(ResourceError::AllocationFailed(error)),
        }
    }
}

impl Pending<MemoryBinding> {
    /// The call that binds the image to the memory that was allocated for
    /// it.
    pub fn bind_info(&self) -> (info: BindImageMemoryInfo)
        ensures
            info == (BindImageMemoryInfo {
                image: self@.image,
                memory: self@.allocation.memory,
                offset: self@.allocation.offset,
            }),
    {
        BindImageMemoryInfo {
            image: self.stage.image,
            memory: self.stage.allocation.memory,
            offset: self.stage.allocation.offset,
        }
    }

    /// Takes in how the binding ended.
    pub fn bound(self, outcome: Result<(), ash::vk::Result>) -> (r: Result<
        Pending<SamplerCreation>,
        ResourceError,
    >)
        ensures
            match r {
                Ok(next) => outcome is Ok && next@ == (SamplerCreation {
                    request: self@.request,
                    image: self@.image,
                    allocation: self@.allocation,
                }),
                Err(ResourceError::BindImageMemoryFailed(code)) => outcome matches Err(c) && c
                    == code,
                Err(_) => false,
            },
    {
        match outcome {
            Ok(_) => Ok(
                Pending {
                    stage: SamplerCreation {
                        request: self.stage.request,
                        image: self.stage.image,
                        allocation: self.stage.allocation,
                    },
                },
            ),
            Err(code) => Err(ResourceError::BindImageMemoryFailed(code)),
        }
    }
}

impl Pending<SamplerCreation> {
    /// What the sampler is created with.
    pub fn create_info(&self) -> (info: SamplerCreateInfo)
        ensures
            info == sampler_create_info(),
    {
        SamplerCreateInfo {
            mag_filter: Filter::Linear,
            min_filter: Filter::Linear,
            mipmap_mode: SamplerMipmapMode::Linear,
            address_mode_u: SamplerAddressMode::ClampToEdge,
            address_mode_v: SamplerAddressMode::ClampToEdge,
            address_mode_w: SamplerAddressMode::ClampToEdge,
            mip_lod_bias: 0,
            anisotropy_enable: false,
            max_anisotropy: 1,
            min_lod: 0,
            max_lod: 0,
            border_color: BorderColor::FloatOpaqueWhite,
        }
    }

    /// Takes in how the creation of the sampler ended.
    pub fn sampler_created(self, outcome: Result<u64, ash::vk::Result>) -> (r: Result<
        Pending<ViewCreation>,
        ResourceError,
    >)
        ensures
            match r {
                Ok(next) => outcome matches Ok(sampler) && next@ == (ViewCreation {
                    request: self@.request,
                    image: self@.image,
                    allocation: self@.allocation,
                    sampler,
                }),
                Err(ResourceError::SamplerCreationFailed(code)) => outcome matches Err(c) && c
                    == code,
                Err(_) => false,
            },
    {
        match outcome {
            Ok(sampler) => Ok(
                Pending {
                    stage: ViewCreation {
                        request: self.stage.request,
                        image: self.stage.image,
                        allocation: self.stage.allocation,
                        sampler,
                    },
                },
            ),
            Err(code) => Err(ResourceError::SamplerCreationFailed(code)),
        }
    }
}

/// The part of the image that the view of a texture of `format` shows.
pub fn subresource_range_of(format: TextureFormat) -> (range: ImageSubresourceRange)
    ensures
        range == subresource_range(format),
{
    ImageSubresourceRange {
        aspect_mask: match format {
            TextureFormat::Depth => ImageAspect::Depth,
            _ => ImageAspect::Color,
        },
        base_mip_level: 0,
        level_count: 1,
        base_array_layer: 0,
        layer_count: if format.is_cubemap() {
            6
        } else {
            1
        },
    }
}

impl Pending<ViewCreation> {
    /// What the view is created with.
    pub fn create_info(&self) -> (info: ImageViewCreateInfo)
        ensures
            info == image_view_create_info(self@.request, self@.image),
    {
        let request = self.stage.request;
        ImageViewCreateInfo {
            image: self.stage.image,
            view_type: if request.format.is_cubemap() {
                ImageViewType::Cube
            } else {
                ImageViewType::Type2d
            },
            format: request.format.to_image_format(request.depth_format),
            subresource_range: subresource_range_of(request.format),
        }
    }

    /// Takes in how the creation of the view ended. With the view the
    /// texture is complete.
    pub fn view_created(self, outcome: Result<u64, ash::vk::Result>) -> (r: Result<
        VulkanTexture,
        ResourceError,
    >)
        ensures
            match r {
                Ok(texture) => outcome matches Ok(image_view) && texture == (VulkanTexture {
                    width: self@.request.width,
                    height: self@.request.height,
                    image: self@.image,
                    sampler: self@.sampler,
                    image_view,
                    subresource_range: subresource_range(self@.request.format),
                    allocation: self@.allocation,
                    format: self@.request.format,
                    usage: self@.request.usage,
                }),
                Err(ResourceError::ImageViewCreationFailed(code)) => outcome matches Err(c) && c
                    == code,
                Err(_) => false,
            },
    {
        match outcome {
            Ok(image_view) => {
                let request = self.stage.request;
                Ok(
                    VulkanTexture {
                        width: request.width,
                        height: request.height,
                        image: self.stage.image,
                        sampler: self.stage.sampler,
                        image_view,
                        subresource_range: subresource_range_of(request.format),
                        allocation: self.stage.allocation,
                        format: request.format,
                        usage: request.usage,
                    },
                )
            },
            Err(code) => Err(ResourceError::ImageViewCreationFailed(code)),
        }
    }
}

impl VulkanDevice {
    /// Begins the creation of a texture on this device.
    ///
    /// The memory of a texture comes from the device's allocator, so
    /// nothing can be created once the allocator is gone.
    pub fn create_texture(
        &self,
        width: u32,
        height: u32,
        format: TextureFormat,
        usage: TextureUsage,
    ) -> (r: Result<Pending<ImageCreation>, ResourceError>)
        ensures
            match r {
                Ok(pending) => self.is_alive() && pending@ == (ImageCreation {
                    request: TextureRequest {
                        width,
                        height,
                        format,
                        usage,
                        depth_format: self.description().depth_format,
                    },
                }),
                Err(ResourceError::AllocatorUnavailable) => !self.is_alive(),
                Err(_) => false,
            },
    {
        if self.allocator_desc().is_none() {
            return Err(ResourceError::AllocatorUnavailable);
        }
        Ok(
            Pending {
                stage: ImageCreation {
                    request: TextureRequest {
                        width,
                        height,
                        format,
                        usage,
                        depth_format: self.depth_format(),
                    },
                },
            },
        )
    }

    /// Gives a texture up: its image, its view, its sampler and its memory
    /// go to the destruction queue as one batch of four requests. Nothing is
    /// freed here.
    pub fn destroy_texture(&mut self, texture: VulkanTexture)
        ensures
            final(self).description() == old(self).description(),
            final(self).allocator() == old(self).allocator(),
            final(self).pending() == old(self).pending().push(texture.destruction_batch()),
    {
        let mut batch: Vec<VulkanDestructor> = Vec::new();
        batch.push(VulkanDestructor::Image(texture.image));
        batch.push(VulkanDestructor::ImageView(texture.image_view));
        batch.push(VulkanDestructor::Sampler(texture.sampler));
        batch.push(VulkanDestructor::Allocation(texture.allocation));
        assert(batch@ =~= texture.destruction_batch());
        self.queue_destruction(batch);
    }
}

/// A depth texture that is an attachment and is sampled has an image that
/// is a depth-stencil attachment and sampled, and no colour attachment; its
/// view shows the depth aspect alone.
pub proof fn lemma_depth_attachment(request: TextureRequest)
    requires
        request.format is Depth,
        request.usage.attachment,
        request.usage.sampled,
    ensures
        has_flags(image_create_info(request).usage, IMAGE_USAGE_DEPTH_STENCIL_ATTACHMENT_BIT),
        has_flags(image_create_info(request).usage, IMAGE_USAGE_SAMPLED_BIT),
        !has_flags(image_create_info(request).usage, IMAGE_USAGE_COLOR_ATTACHMENT_BIT),
        subresource_range(request.format).aspect_mask == ImageAspect::Depth,
{
    lemma_image_usage_flags(request.usage, request.format);
}

/// A cubemap has six array layers, an image that cube views can be made of,
/// and a cube view over all six layers. Every other texture has one layer
/// and a two-dimensional view.
pub proof fn lemma_cubemap_shape(request: TextureRequest, image: u64)
    ensures
        request.format.spec_is_cubemap() ==> {
            &&& image_create_info(request).array_layers == 6
            &&& image_create_info(request).cube_compatible
            &&& image_view_create_info(request, image).view_type == ImageViewType::Cube
            &&& image_view_create_info(request, image).subresource_range.layer_count == 6
        },
        !request.format.spec_is_cubemap() ==> {
            &&& image_create_info(request).array_layers == 1
            &&& !image_create_info(request).cube_compatible
            &&& image_view_create_info(request, image).view_type == ImageViewType::Type2d
            &&& image_view_create_info(request, image).subresource_range.layer_count == 1
        },
{
}

/// Textures compare equal exactly where image, sampler and view are the
/// same handles: what else they hold plays no part, and one handle that
/// differs makes them unequal.
pub proof fn lemma_texture_identity(a: VulkanTexture, b: VulkanTexture)
    ensures
        a.eq_spec(&b) <==> a.same_resource(b),
        a.image != b.image || a.sampler != b.sampler || a.image_view != b.image_view
            ==> !a.eq_spec(&b),
        a.eq_spec(&a),
        a.eq_spec(&b) <==> b.eq_spec(&a),
{
}

/// The batch that frees a texture has exactly four requests: the image, the
/// view, the sampler and the memory, in this order.
pub proof fn lemma_texture_batch(texture: VulkanTexture)
    ensures
        texture.destruction_batch().len() == 4,
        texture.destruction_batch()[0] == VulkanDestructor::Image(texture.image),
        texture.destruction_batch()[1] == VulkanDestructor::ImageView(texture.image_view),
        texture.destruction_batch()[2] == VulkanDestructor::Sampler(texture.sampler),
        texture.destruction_batch()[3] == VulkanDestructor::Allocation(texture.allocation),
{
}

} // verus!
