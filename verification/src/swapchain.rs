//! What a physical device offers for presenting to a surface.

use vstd::prelude::*;

verus! {

/// The surface capabilities, formats and present modes of one physical
/// device, in the order in which the driver listed them.
#[derive(Debug)]
pub struct SwapchainDetails {
    pub capabilities: ash::vk::SurfaceCapabilitiesKHR,
    pub surface_formats: Vec<ash::vk::SurfaceFormatKHR>,
    pub present_modes: Vec<ash::vk::PresentModeKHR>,
}

} // verus!
