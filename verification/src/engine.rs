//! The engine: start-up on the machine's GPUs, and what one turn of the
//! frame loop does.

use vstd::prelude::*;
use crate::device::{is_startup_failure, VulkanDevice};
use crate::error::DeviceError;
use crate::physical_device::PhysicalDeviceCandidate;

verus! {

/// A colour with eight bits for each channel.
#[derive(Clone, Copy, Debug, PartialEq, Eq, Structural)]
pub struct Color {
    pub r: u8,
    pub g: u8,
    pub b: u8,
    pub a: u8,
}

/// One step of a turn of the frame loop.
#[derive(Clone, Copy, Debug, PartialEq, Eq, Structural)]
pub enum FrameStep {
    /// Bind the output framebuffer and clear it to the colour.
    BindOutputFramebuffer(Color),
    UnbindOutputFramebuffer,
    EndFrame,
    /// Let the editor update itself.
    EditorUpdate,
}

/// Black, fully opaque.
pub open spec fn clear_color() -> Color {
    Color { r: 0, g: 0, b: 0, a: 255 }
}

/// The steps of one turn of the frame loop. A frame that could be begun is
/// cleared and ended; the editor is updated either way, after the frame.
pub open spec fn frame_steps(frame_begun: bool) -> Seq<FrameStep> {
    if frame_begun {
        seq![
            FrameStep::BindOutputFramebuffer(clear_color()),
            FrameStep::UnbindOutputFramebuffer,
            FrameStep::EndFrame,
            FrameStep::EditorUpdate,
        ]
    } else {
        seq![FrameStep::EditorUpdate]
    }
}

/// The engine: a window title and the device that it renders with.
#[derive(Debug)]
pub struct GoldfishEngine {
    title: &'static str,
    graphics_device: VulkanDevice,
}

impl GoldfishEngine {
    /// The title of the engine's window.
    pub closed spec fn title(&self) -> Seq<char> {
        self.title@
    }

    /// The device that the engine renders with.
    pub closed spec fn graphics_device(&self) -> VulkanDevice {
        self.graphics_device
    }

    /// Starts the engine on the physical devices of the machine: the device
    /// is stood up on the best of them.
    pub fn new(title: &'static str, candidates: &Vec<PhysicalDeviceCandidate>) -> (r: Result<
        Self,
        DeviceError,
    >)
        requires
            forall|j: int|
                0 <= j < candidates@.len() ==> (#[trigger] candidates@[j]).is_addressable(),
        ensures
            match r {
                Ok(engine) => engine.title() == title@ && engine.graphics_device().stands_fresh_on(
                    candidates@,
                ),
                Err(e) => is_startup_failure(candidates@, e),
            },
    {
        match VulkanDevice::new(candidates) {
            Ok(graphics_device) => Ok(GoldfishEngine { title, graphics_device }),
            Err(e) => Err(e),
        }
    }

    /// The title of the engine's window.
    pub fn get_title(&self) -> (title: &'static str)
        ensures
            title@ == self.title(),
    {
        self.title
    }

    /// The device that the engine renders with.
    pub fn device(&self) -> (device: &VulkanDevice)
        ensures
            *device == self.graphics_device(),
    {
        &self.graphics_device
    }

    /// The device that the engine renders with, to create and destroy
    /// resources through.
    pub fn device_mut(&mut self) -> (device: &mut VulkanDevice)
        ensures
            *device == old(self).graphics_device(),
            *final(device) == final(self).graphics_device(),
            final(self).title() == old(self).title(),
    {
        &mut self.graphics_device
    }

    /// One turn of the frame loop: what is done, in order, after the
    /// attempt to begin a frame.
    pub fn run(&self, frame_begun: bool) -> (steps: Vec<FrameStep>)
        ensures
            steps@ == frame_steps(frame_begun),
    {
        let mut steps: Vec<FrameStep> = Vec::new();
        if frame_begun {
            steps.push(FrameStep::BindOutputFramebuffer(Color { r: 0, g: 0, b: 0, a: 255 }));
            steps.push(FrameStep::UnbindOutputFramebuffer);
            steps.push(FrameStep::EndFrame);
        }
        steps.push(FrameStep::EditorUpdate);
        assert(steps@ =~= frame_steps(frame_begun));
        steps
    }
}

} // verus!
