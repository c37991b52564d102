//! Physical-device discovery: scoring every candidate and picking one.

use vstd::prelude::*;
use crate::error::DeviceError;
use crate::queue_family::{addressable, find_queue_families, has_combined, has_present, QueueFamily};
use crate::swapchain::SwapchainDetails;
use crate::vk::{format_feature_depth_stencil_attachment_bit, format_features_contain, has_flags,
    physical_device_type_discrete_gpu, physical_device_type_integrated_gpu,
    FORMAT_FEATURE_DEPTH_STENCIL_ATTACHMENT_BIT, PHYSICAL_DEVICE_TYPE_DISCRETE_GPU,
    PHYSICAL_DEVICE_TYPE_INTEGRATED_GPU};

verus! {

/// The depth-stencil formats that the renderer can work with, best first.
#[derive(Clone, Copy, Debug, PartialEq, Eq, Structural)]
pub enum DepthFormat {
    D32SfloatS8Uint,
    D32Sfloat,
    D24UnormS8Uint,
    D16UnormS8Uint,
    D16Unorm,
}

impl DepthFormat {
    /// The place of the format in the order of preference; 0 is the best.
    pub open spec fn rank(self) -> int {
        match self {
            DepthFormat::D32SfloatS8Uint => 0,
            DepthFormat::D32Sfloat => 1,
            DepthFormat::D24UnormS8Uint => 2,
            DepthFormat::D16UnormS8Uint => 3,
            DepthFormat::D16Unorm => 4,
        }
    }
}

/// The `VkFormatFeatureFlags` that a physical device reports for optimal
/// tiling, for each depth-stencil format.
#[derive(Clone, Copy, Debug, PartialEq, Eq, Structural)]
pub struct DepthFormatSupport {
    pub d32_sfloat_s8_uint: u32,
    pub d32_sfloat: u32,
    pub d24_unorm_s8_uint: u32,
    pub d16_unorm_s8_uint: u32,
    pub d16_unorm: u32,
}

impl DepthFormatSupport {
    pub open spec fn features(self, format: DepthFormat) -> u32 {
        match format {
            DepthFormat::D32SfloatS8Uint => self.d32_sfloat_s8_uint,
            DepthFormat::D32Sfloat => self.d32_sfloat,
            DepthFormat::D24UnormS8Uint => self.d24_unorm_s8_uint,
            DepthFormat::D16UnormS8Uint => self.d16_unorm_s8_uint,
            DepthFormat::D16Unorm => self.d16_unorm,
        }
    }

    /// The format can be a depth-stencil attachment with optimal tiling.
    pub open spec fn supports(self, format: DepthFormat) -> bool {
        has_flags(self.features(format), FORMAT_FEATURE_DEPTH_STENCIL_ATTACHMENT_BIT)
    }
}

/// `format` is the best depth-stencil format that `support` offers.
pub open spec fn is_best_depth_format(support: DepthFormatSupport, format: DepthFormat) -> bool {
    &&& support.supports(format)
    &&& forall|better: DepthFormat|
        better.rank() < format.rank() ==> !#[trigger] support.supports(better)
}

/// Picks the depth-stencil format of a device: the first one, in the order
/// of preference, that can be a depth-stencil attachment.
pub fn select_depth_format(support: &DepthFormatSupport) -> (r: Option<DepthFormat>)
    ensures
        match r {
            Some(format) => is_best_depth_format(*support, format),
            None => forall|format: DepthFormat| !#[trigger] support.supports(format),
        },
{
    let wanted: u32 = format_feature_depth_stencil_attachment_bit();
    if format_features_contain(support.d32_sfloat_s8_uint, wanted) {
        Some(DepthFormat::D32SfloatS8Uint)
    } else if format_features_contain(support.d32_sfloat, wanted) {
        Some(DepthFormat::D32Sfloat)
    } else if format_features_contain(support.d24_unorm_s8_uint, wanted) {
        Some(DepthFormat::D24UnormS8Uint)
    } else if format_features_contain(support.d16_unorm_s8_uint, wanted) {
        Some(DepthFormat::D16UnormS8Uint)
    } else if format_features_contain(support.d16_unorm, wanted) {
        Some(DepthFormat::D16Unorm)
    } else {
        None
    }
}

/// The static properties of a physical device that selection reads.
#[derive(Clone, Copy, Debug, PartialEq, Eq, Structural)]
pub struct PhysicalDeviceProperties {
    /// The device's `VkPhysicalDeviceType`, as the driver reports it.
    pub device_type: i32,
    /// The largest width or height of a 2D image on the device.
    pub max_image_dimension_2d: u32,
}

/// One enumerated physical device with everything that selection needs to
/// know of it.
#[derive(Debug)]
pub struct PhysicalDeviceCandidate {
    /// The device's `VkPhysicalDevice` handle.
    pub handle: u64,
    pub properties: PhysicalDeviceProperties,
    /// The device's queue families, in the driver's order.
    pub queue_families: Vec<QueueFamily>,
    /// The device's swapchain support; `None` where a query failed.
    pub swapchain_support: Option<SwapchainDetails>,
    pub depth_support: DepthFormatSupport,
}

/// What the kind of a device adds to its score.
pub open spec fn device_type_bonus(device_type: i32) -> nat {
    if device_type == PHYSICAL_DEVICE_TYPE_DISCRETE_GPU {
        1000
    } else if device_type == PHYSICAL_DEVICE_TYPE_INTEGRATED_GPU {
        1
    } else {
        0
    }
}

impl PhysicalDeviceCandidate {
    /// Every family of the device has an index that a `u32` holds.
    pub open spec fn is_addressable(self) -> bool {
        addressable(self.queue_families@)
    }

    /// All three queue roles resolve and the swapchain queries succeeded.
    pub open spec fn is_eligible(self) -> bool {
        &&& has_combined(self.queue_families@)
        &&& has_present(self.queue_families@)
        &&& self.swapchain_support is Some
    }

    /// The score of the device: zero where it is not eligible, else the
    /// bonus of its kind plus its largest 2D image dimension.
    pub open spec fn score(self) -> nat {
        if self.is_eligible() {
            device_type_bonus(self.properties.device_type)
                + self.properties.max_image_dimension_2d as nat
        } else {
            0
        }
    }
}

/// Scores one physical device.
pub fn rate_device_suitability(candidate: &PhysicalDeviceCandidate) -> (score: u64)
    requires
        candidate.is_addressable(),
    ensures
        score == candidate.score(),
{
    if find_queue_families(&candidate.queue_families).is_some()
        && candidate.swapchain_support.is_some() {
        let mut score: u64 = 0;
        let device_type: i32 = candidate.properties.device_type;
        if device_type == physical_device_type_discrete_gpu() {
            score += 1000;
        } else if device_type == physical_device_type_integrated_gpu() {
            score += 1;
        }
        score += candidate.properties.max_image_dimension_2d as u64;
        score
    } else {
        0
    }
}

/// `winner` is the device that selection picks from `candidates`: its score
/// is above zero, no device scores higher, and every device before it scores
/// lower.
pub open spec fn is_selected(candidates: Seq<PhysicalDeviceCandidate>, winner: int) -> bool {
    &&& 0 <= winner < candidates.len()
    &&& candidates[winner].score() > 0
    &&& forall|j: int|
        0 <= j < candidates.len() ==> (#[trigger] candidates[j]).score()
            <= candidates[winner].score()
    &&& forall|j: int|
        0 <= j < winner ==> (#[trigger] candidates[j]).score() < candidates[winner].score()
}

/// No device of `candidates` scores above zero.
pub open spec fn none_suitable(candidates: Seq<PhysicalDeviceCandidate>) -> bool {
    forall|j: int| 0 <= j < candidates.len() ==> (#[trigger] candidates[j]).score() == 0
}

/// Picks the physical device with the highest score; among equal scores the
/// one that was enumerated first.
pub fn select_physical_device(candidates: &Vec<PhysicalDeviceCandidate>) -> (r: Result<
    usize,
    DeviceError,
>)
    requires
        forall|j: int| 0 <= j < candidates@.len() ==> (#[trigger] candidates@[j]).is_addressable(),
    ensures
        match r {
            Ok(winner) => is_selected(candidates@, winner as int),
            Err(DeviceError::NoPhysicalDevice) => candidates@.len() == 0,
            Err(DeviceError::NoSuitableDevice) => candidates@.len() > 0 && none_suitable(
                candidates@,
            ),
            Err(_) => false,
        },
{
    if candidates.len() == 0 {
        return Err(DeviceError::NoPhysicalDevice);
    }
    let mut best_score: u64 = 0;
    let mut best_dev: Option<usize> = None;
    let mut i: usize = 0;
    while i < candidates.len()
        invariant
            i <= candidates@.len(),
            forall|j: int|
                0 <= j < candidates@.len() ==> (#[trigger] candidates@[j]).is_addressable(),
            match best_dev {
                Some(winner) => winner < i && best_score == candidates@[winner as int].score()
                    && is_selected(candidates@.take(i as int), winner as int),
                None => best_score == 0 && none_suitable(candidates@.take(i as int)),
            },
        decreases candidates@.len() - i,
    {
        let score: u64 = rate_device_suitability(&candidates[i]);
        proof {
            let before = candidates@.take(i as int);
            let after = candidates@.take(i + 1);
            assert(forall|j: int| 0 <= j < i ==> before[j] == after[j]);
            assert(after[i as int] == candidates@[i as int]);
        }
        if score > best_score {
            best_score = score;
            best_dev = Some(i);
        }
        i += 1;
    }
    proof {
        assert(candidates@.take(i as int) =~= candidates@);
    }
    match best_dev {
        Some(winner) => Ok(winner),
        None => Err(DeviceError::NoSuitableDevice),
    }
}

/// A discrete GPU outscores an integrated GPU of the same largest image
/// dimension, provided the discrete one is eligible at all.
pub proof fn lemma_discrete_outscores_integrated(
    discrete: PhysicalDeviceCandidate,
    integrated: PhysicalDeviceCandidate,
)
    requires
        discrete.properties.device_type == PHYSICAL_DEVICE_TYPE_DISCRETE_GPU,
        integrated.properties.device_type == PHYSICAL_DEVICE_TYPE_INTEGRATED_GPU,
        discrete.properties.max_image_dimension_2d
            == integrated.properties.max_image_dimension_2d,
        discrete.is_eligible(),
    ensures
        discrete.score() >= 1000,
        integrated.score() <= 1 + integrated.properties.max_image_dimension_2d,
        discrete.score() > integrated.score(),
{
}

/// Among devices of one largest image dimension, of which one is an eligible
/// discrete GPU, selection picks a discrete GPU, and so never an integrated
/// one.
pub proof fn lemma_selection_prefers_discrete(
    candidates: Seq<PhysicalDeviceCandidate>,
    winner: int,
    discrete: int,
)
    requires
        is_selected(candidates, winner),
        0 <= discrete < candidates.len(),
        candidates[discrete].properties.device_type == PHYSICAL_DEVICE_TYPE_DISCRETE_GPU,
        candidates[discrete].is_eligible(),
        forall|j: int|
            0 <= j < candidates.len() ==> (#[trigger] candidates[j]).properties.max_image_dimension_2d
                == candidates[discrete].properties.max_image_dimension_2d,
    ensures
        candidates[winner].properties.device_type == PHYSICAL_DEVICE_TYPE_DISCRETE_GPU,
        candidates[winner].score() == 1000 + candidates[discrete].properties.max_image_dimension_2d,
{
    assert(candidates[discrete].score() <= candidates[winner].score());
}

/// A device without a family that can present scores zero, whatever its
/// kind and its largest image dimension.
pub proof fn lemma_no_present_family_scores_zero(candidate: PhysicalDeviceCandidate)
    requires
        forall|k: int|
            0 <= k < candidate.queue_families@.len() ==> !(
            #[trigger] candidate.queue_families@[k]).present_support,
    ensures
        candidate.score() == 0,
{
}

/// A device whose swapchain queries failed scores zero, whatever its kind
/// and its largest image dimension.
pub proof fn lemma_no_swapchain_support_scores_zero(candidate: PhysicalDeviceCandidate)
    requires
        candidate.swapchain_support is None,
    ensures
        candidate.score() == 0,
{
}

} // verus!
