//! The device: the chosen physical device, the queues of the logical
//! device, the allocator binding and the books of deferred destruction.

use vstd::prelude::*;
use crate::destruction::{batch_views, DestructionQueue, VulkanDestructor};
use crate::error::DeviceError;
use crate::physical_device::{is_best_depth_format, is_selected, none_suitable, select_depth_format,
    select_physical_device, DepthFormat, PhysicalDeviceCandidate, PhysicalDeviceProperties};
use crate::queue_family::{find_queue_families, QueueFamilyIndices};
use crate::swapchain::SwapchainDetails;

verus! {

/// One queue of the logical device.
#[derive(Clone, Copy, Debug, PartialEq, Eq, Structural)]
pub struct Queue {
    pub family: u32,
    pub index: u32,
}

/// The request for the queues of one family at the creation of the logical
/// device. Every queue is asked for with the same, single priority.
#[derive(Clone, Copy, Debug, PartialEq, Eq, Structural)]
pub struct DeviceQueueCreateInfo {
    pub queue_family_index: u32,
    pub queue_count: u32,
}

/// The device extensions that the renderer cannot do without.
#[derive(Clone, Copy, Debug, PartialEq, Eq, Structural)]
pub enum DeviceExtension {
    Swapchain,
}

/// The device features that the renderer cannot do without.
#[derive(Clone, Copy, Debug, PartialEq, Eq, Structural)]
pub struct DeviceFeatures {
    pub shader_clip_distance: bool,
}

/// The policy that the allocator is made with.
#[derive(Clone, Copy, Debug, PartialEq, Eq, Structural)]
pub struct AllocatorCreateDesc {
    pub buffer_device_address: bool,
}

/// What the logical device is created with.
#[derive(Debug, PartialEq, Eq)]
pub struct DeviceCreateInfo {
    pub queue_create_infos: Vec<DeviceQueueCreateInfo>,
    pub enabled_extensions: Vec<DeviceExtension>,
    pub enabled_features: DeviceFeatures,
}

/// One call that puts work on a queue.
#[derive(Clone, Copy, Debug, PartialEq, Eq, Structural)]
pub enum QueueCommand {
    ResetFence { fence: u64 },
    Submit { queue: Queue, command_buffer: u64, fence: u64 },
}

/// One step of taking a device, or a child of it, down.
#[derive(Debug, PartialEq, Eq)]
pub enum TeardownStep {
    /// Wait until the whole device is idle.
    WaitIdle,
    /// Free every request of every batch, batch by batch.
    Release(Vec<Vec<VulkanDestructor>>),
    DropAllocator,
    DestroyDevice,
    DestroySurface,
    DestroyDebugMessenger,
    DestroyInstance,
    DestroyFence(u64),
    DestroyCommandPool(u64),
}

/// What is fixed about a device once it stands.
#[derive(Clone, Copy, Debug, PartialEq, Eq, Structural)]
pub struct DeviceDescription {
    /// The place of the physical device in the enumeration.
    pub physical_device_index: usize,
    /// The `VkPhysicalDevice` handle.
    pub physical_device: u64,
    pub physical_device_properties: PhysicalDeviceProperties,
    pub queue_family_indices: QueueFamilyIndices,
    pub depth_format: DepthFormat,
}

/// The device. It is made once, from the enumerated physical devices, and
/// taken down once, after an idle wait.
#[derive(Debug)]
pub struct VulkanDevice {
    description: DeviceDescription,
    vma: Option<AllocatorCreateDesc>,
    destruction_queue: DestructionQueue,
}

/// The families that get queues, each once, in the order graphics, compute,
/// presentation.
pub open spec fn distinct_families(indices: QueueFamilyIndices) -> Seq<u32> {
    let first = seq![indices.graphics_family];
    let second = if indices.compute_family != indices.graphics_family {
        first.push(indices.compute_family)
    } else {
        first
    };
    if indices.present_family != indices.graphics_family && indices.present_family
        != indices.compute_family {
        second.push(indices.present_family)
    } else {
        second
    }
}

/// The request for one queue of `family`.
pub open spec fn one_queue_of(family: u32) -> DeviceQueueCreateInfo {
    DeviceQueueCreateInfo { queue_family_index: family, queue_count: 1 }
}

/// The plan of a teardown while `pending` waits in the destruction queue:
/// the idle wait comes first, then what waited is freed, then the allocator
/// goes, and only then the logical device and what it stood on.
pub open spec fn is_teardown_plan(steps: Seq<TeardownStep>, pending: Seq<Seq<VulkanDestructor>>) -> bool {
    &&& steps.len() == 7
    &&& steps[0] is WaitIdle
    &&& steps[1] matches TeardownStep::Release(batches) && batch_views(batches@) == pending
    &&& steps[2] is DropAllocator
    &&& steps[3] is DestroyDevice
    &&& steps[4] is DestroySurface
    &&& steps[5] is DestroyDebugMessenger
    &&& steps[6] is DestroyInstance
}

/// The two calls of a submission: the fence is reset, and directly after it
/// the command buffer goes to the queue with that fence.
pub open spec fn submission(queue: Queue, command_buffer: u64, fence: u64) -> Seq<QueueCommand> {
    seq![
        QueueCommand::ResetFence { fence },
        QueueCommand::Submit { queue, command_buffer, fence },
    ]
}

/// Why no device can be stood up on `candidates`: there is none, or none
/// scores above zero, or the one that selection picks offers no
/// depth-stencil format.
pub open spec fn is_startup_failure(
    candidates: Seq<PhysicalDeviceCandidate>,
    e: DeviceError,
) -> bool {
    match e {
        DeviceError::NoPhysicalDevice => candidates.len() == 0,
        DeviceError::NoSuitableDevice => candidates.len() > 0 && none_suitable(candidates),
        DeviceError::NoDepthFormat => exists|winner: int|
            is_selected(candidates, winner) && forall|format: DepthFormat|
                !#[trigger] candidates[winner].depth_support.supports(format),
        _ => false,
    }
}

impl VulkanDevice {
    /// The device is the one that start-up on `candidates` yields: it stands
    /// on the physical device that selection picks, with that device's
    /// resolved queue roles and best depth-stencil format, the allocator is
    /// bound with buffer device addressing, and nothing waits for
    /// destruction.
    pub open spec fn stands_fresh_on(self, candidates: Seq<PhysicalDeviceCandidate>) -> bool {
        let d = self.description();
        let chosen = candidates[d.physical_device_index as int];
        &&& is_selected(candidates, d.physical_device_index as int)
        &&& d.physical_device == chosen.handle
        &&& d.physical_device_properties == chosen.properties
        &&& d.queue_family_indices.resolves(chosen.queue_families@)
        &&& is_best_depth_format(chosen.depth_support, d.depth_format)
        &&& self.allocator() == Some(AllocatorCreateDesc { buffer_device_address: true })
        &&& self.pending() == Seq::<Seq<VulkanDestructor>>::empty()
    }

    /// What is fixed about the device.
    pub closed spec fn description(&self) -> DeviceDescription {
        self.description
    }

    /// The policy of the allocator while it is bound; `None` once it is gone.
    pub closed spec fn allocator(&self) -> Option<AllocatorCreateDesc> {
        self.vma
    }

    /// The batches that wait in the destruction queue.
    pub closed spec fn pending(&self) -> Seq<Seq<VulkanDestructor>> {
        self.destruction_queue@
    }

    /// The device stands until it is destroyed.
    pub open spec fn is_alive(&self) -> bool {
        self.allocator() is Some
    }

    pub open spec fn spec_graphics_queue(&self) -> Queue {
        Queue { family: self.description().queue_family_indices.graphics_family, index: 0 }
    }

    pub open spec fn spec_compute_queue(&self) -> Queue {
        Queue { family: self.description().queue_family_indices.compute_family, index: 0 }
    }

    pub open spec fn spec_present_queue(&self) -> Queue {
        Queue { family: self.description().queue_family_indices.present_family, index: 0 }
    }

    /// Picks the physical device and stands the device up on it.
    ///
    /// The device with the highest score is taken, the first one among equal
    /// scores. Its queue roles are resolved, its best depth-stencil format
    /// is chosen, the allocator is bound with buffer device addressing, and
    /// nothing waits for destruction.
    pub fn new(candidates: &Vec<PhysicalDeviceCandidate>) -> (r: Result<VulkanDevice, DeviceError>)
        requires
            forall|j: int|
                0 <= j < candidates@.len() ==> (#[trigger] candidates@[j]).is_addressable(),
        ensures
            match r {
                Ok(device) => device.stands_fresh_on(candidates@),
                Err(e) => is_startup_failure(candidates@, e),
            },
    {
        let winner: usize = match select_physical_device(candidates) {
            Ok(winner) => winner,
            Err(e) => {
                return Err(e);
            },
        };
        let chosen = &candidates[winner];
        // A device that scores above zero has all three roles resolved.
        let queue_family_indices = find_queue_families(&chosen.queue_families).unwrap();
        let depth_format = match select_depth_format(&chosen.depth_support) {
            Some(format) => format,
            None => {
                return Err(DeviceError::NoDepthFormat);
            },
        };
        Ok(
            VulkanDevice {
                description: DeviceDescription {
                    physical_device_index: winner,
                    physical_device: chosen.handle,
                    physical_device_properties: chosen.properties,
                    queue_family_indices,
                    depth_format,
                },
                vma: Some(AllocatorCreateDesc { buffer_device_address: true }),
                destruction_queue: DestructionQueue::new(),
            },
        )
    }

    /// What is fixed about the device.
    pub fn get_description(&self) -> (d: &DeviceDescription)
        ensures
            *d == self.description(),
    {
        &self.description
    }

    /// The family index of each queue role.
    pub fn get_queue_family_indices(&self) -> (indices: &QueueFamilyIndices)
        ensures
            *indices == self.description().queue_family_indices,
    {
        &self.description.queue_family_indices
    }

    /// The depth-stencil format that was chosen for the device.
    pub fn depth_format(&self) -> (format: DepthFormat)
        ensures
            format == self.description().depth_format,
    {
        self.description.depth_format
    }

    /// The queue of the graphics role.
    #[verifier::when_used_as_spec(spec_graphics_queue)]
    pub fn graphics_queue(&self) -> (queue: Queue)
        ensures
            queue == self.spec_graphics_queue(),
    {
        Queue { family: self.description.queue_family_indices.graphics_family, index: 0 }
    }

    /// The queue of the compute role.
    #[verifier::when_used_as_spec(spec_compute_queue)]
    pub fn compute_queue(&self) -> (queue: Queue)
        ensures
            queue == self.spec_compute_queue(),
    {
        Queue { family: self.description.queue_family_indices.compute_family, index: 0 }
    }

    /// The queue of the presentation role.
    #[verifier::when_used_as_spec(spec_present_queue)]
    pub fn present_queue(&self) -> (queue: Queue)
        ensures
            queue == self.spec_present_queue(),
    {
        Queue { family: self.description.queue_family_indices.present_family, index: 0 }
    }

    /// The policy of the allocator while it is bound.
    pub fn allocator_desc(&self) -> (desc: Option<AllocatorCreateDesc>)
        ensures
            desc == self.allocator(),
    {
        self.vma
    }

    /// How many batches wait in the destruction queue.
    pub fn pending_batches(&self) -> (n: usize)
        ensures
            n == self.pending().len(),
    {
        self.destruction_queue.len()
    }

    /// What the logical device is created with: one queue for each distinct
    /// family among the three roles, the swapchain extension, and clip
    /// distances in shaders.
    pub fn create_info(&self) -> (info: DeviceCreateInfo)
        ensures
            info.queue_create_infos@ == distinct_families(
                self.description().queue_family_indices,
            ).map_values(|family: u32| one_queue_of(family)),
            info.queue_create_infos@.no_duplicates(),
            info.enabled_extensions@ == seq![DeviceExtension::Swapchain],
            info.enabled_features == (DeviceFeatures { shader_clip_distance: true }),
    {
        let indices = self.description.queue_family_indices;
        let mut queue_create_infos: Vec<DeviceQueueCreateInfo> = Vec::new();
        queue_create_infos.push(
            DeviceQueueCreateInfo { queue_family_index: indices.graphics_family, queue_count: 1 },
        );
        if indices.compute_family != indices.graphics_family {
            queue_create_infos.push(
                DeviceQueueCreateInfo { queue_family_index: indices.compute_family, queue_count: 1 },
            );
        }
        if indices.present_family != indices.graphics_family && indices.present_family
            != indices.compute_family {
            queue_create_infos.push(
                DeviceQueueCreateInfo { queue_family_index: indices.present_family, queue_count: 1 },
            );
        }
        let mut enabled_extensions: Vec<DeviceExtension> = Vec::new();
        enabled_extensions.push(DeviceExtension::Swapchain);
        assert(queue_create_infos@ =~= distinct_families(indices).map_values(
            |family: u32| one_queue_of(family),
        ));
        DeviceCreateInfo {
            queue_create_infos,
            enabled_extensions,
            enabled_features: DeviceFeatures { shader_clip_distance: true },
        }
    }

    /// Records that an idle wait of the whole device has ended, and how.
    ///
    /// After a wait that succeeded nothing that was submitted is in flight
    /// any more: every batch that waited is handed out to be freed. After a
    /// wait that failed nothing is handed out and everything goes on
    /// waiting.
    pub fn wait_idle(&mut self, outcome: Result<(), ash::vk::Result>) -> (r: Result<
        Vec<Vec<VulkanDestructor>>,
        DeviceError,
    >)
        ensures
            final(self).description() == old(self).description(),
            final(self).allocator() == old(self).allocator(),
            match r {
                Ok(released) => outcome is Ok && batch_views(released@) == old(self).pending()
                    && final(self).pending() == Seq::<Seq<VulkanDestructor>>::empty(),
                Err(DeviceError::WaitIdleFailed(code)) => outcome == Err::<(), ash::vk::Result>(code)
                    && final(self).pending() == old(self).pending(),
                Err(_) => false,
            },
    {
        match outcome {
            Ok(_) => Ok(self.destruction_queue.release_after_idle_wait()),
            Err(code) => Err(DeviceError::WaitIdleFailed(code)),
        }
    }

    /// The calls that submit a command buffer to the graphics queue: the
    /// fence is reset directly before the submission that will signal it.
    pub fn graphics_queue_submit(&self, command_buffer: u64, fence: u64) -> (commands: Vec<
        QueueCommand,
    >)
        ensures
            commands@ == submission(self.spec_graphics_queue(), command_buffer, fence),
    {
        let mut commands: Vec<QueueCommand> = Vec::new();
        commands.push(QueueCommand::ResetFence { fence });
        commands.push(QueueCommand::Submit { queue: self.graphics_queue(), command_buffer, fence });
        assert(commands@ =~= submission(self.spec_graphics_queue(), command_buffer, fence));
        commands
    }

    /// The calls that submit a command buffer to the compute queue: the
    /// fence is reset directly before the submission that will signal it.
    pub fn compute_queue_submit(&self, command_buffer: u64, fence: u64) -> (commands: Vec<
        QueueCommand,
    >)
        ensures
            commands@ == submission(self.spec_compute_queue(), command_buffer, fence),
    {
        let mut commands: Vec<QueueCommand> = Vec::new();
        commands.push(QueueCommand::ResetFence { fence });
        commands.push(QueueCommand::Submit { queue: self.compute_queue(), command_buffer, fence });
        assert(commands@ =~= submission(self.spec_compute_queue(), command_buffer, fence));
        commands
    }

    /// Puts the answers of a physical device to the three surface queries
    /// together.
    ///
    /// The details exist only where all three queries succeeded; which query
    /// failed, and how, plays no part.
    pub fn query_swapchain_support_physical_device(
        capabilities: Result<ash::vk::SurfaceCapabilitiesKHR, ash::vk::Result>,
        surface_formats: Result<Vec<ash::vk::SurfaceFormatKHR>, ash::vk::Result>,
        present_modes: Result<Vec<ash::vk::PresentModeKHR>, ash::vk::Result>,
    ) -> (r: Option<SwapchainDetails>)
        ensures
            r is Some <==> capabilities is Ok && surface_formats is Ok && present_modes is Ok,
            r matches Some(details) ==> details.capabilities == capabilities->Ok_0
                && details.surface_formats == surface_formats->Ok_0 && details.present_modes
                == present_modes->Ok_0,
    {
        match (capabilities, surface_formats, present_modes) {
            (Ok(capabilities), Ok(surface_formats), Ok(present_modes)) => Some(
                SwapchainDetails { capabilities, surface_formats, present_modes },
            ),
            _ => None,
        }
    }

    /// Puts a fresh set of answers to the three surface queries together
    /// for the device's own physical device.
    pub fn query_swapchain_details(
        &self,
        capabilities: Result<ash::vk::SurfaceCapabilitiesKHR, ash::vk::Result>,
        surface_formats: Result<Vec<ash::vk::SurfaceFormatKHR>, ash::vk::Result>,
        present_modes: Result<Vec<ash::vk::PresentModeKHR>, ash::vk::Result>,
    ) -> (r: Result<SwapchainDetails, DeviceError>)
        ensures
            r is Ok <==> capabilities is Ok && surface_formats is Ok && present_modes is Ok,
            r matches Ok(details) ==> details.capabilities == capabilities->Ok_0
                && details.surface_formats == surface_formats->Ok_0 && details.present_modes
                == present_modes->Ok_0,
            r matches Err(e) ==> e is SwapchainQueryFailed,
    {
        match Self::query_swapchain_support_physical_device(
            capabilities,
            surface_formats,
            present_modes,
        ) {
            Some(details) => Ok(details),
            None => Err(DeviceError::SwapchainQueryFailed),
        }
    }

    /// Takes in the requests of one resource as one batch. Nothing is freed
    /// before an idle wait of the device has completed.
    pub fn queue_destruction(&mut self, batch: Vec<VulkanDestructor>)
        ensures
            final(self).description() == old(self).description(),
            final(self).allocator() == old(self).allocator(),
            final(self).pending() == old(self).pending().push(batch@),
    {
        self.destruction_queue.queue_destruction(batch);
    }

    /// Takes the device down, once.
    ///
    /// The plan opens with the idle wait; what still waited for destruction
    /// is freed after it, the allocator goes before the logical device, and
    /// the instance goes last. A device that was taken down before has no
    /// plan.
    pub fn destroy(&mut self) -> (r: Result<Vec<TeardownStep>, DeviceError>)
        ensures
            final(self).description() == old(self).description(),
            final(self).allocator() is None,
            match r {
                Ok(steps) => old(self).is_alive() && is_teardown_plan(steps@, old(self).pending())
                    && final(self).pending() == Seq::<Seq<VulkanDestructor>>::empty(),
                Err(DeviceError::AlreadyDestroyed) => !old(self).is_alive() && final(self).pending()
                    == old(self).pending(),
                Err(_) => false,
            },
    {
        if self.vma.is_none() {
            return Err(DeviceError::AlreadyDestroyed);
        }
        let released = self.destruction_queue.release_after_idle_wait();
        self.vma = None;
        let mut steps: Vec<TeardownStep> = Vec::new();
        steps.push(TeardownStep::WaitIdle);
        steps.push(TeardownStep::Release(released));
        steps.push(TeardownStep::DropAllocator);
        steps.push(TeardownStep::DestroyDevice);
        steps.push(TeardownStep::DestroySurface);
        steps.push(TeardownStep::DestroyDebugMessenger);
        steps.push(TeardownStep::DestroyInstance);
        Ok(steps)
    }
}

/// What belongs to a device and is taken down through it.
pub trait VulkanDeviceChild: Sized {
    /// The steps that take this child down.
    spec fn teardown(self) -> Seq<TeardownStep>;

    /// Takes the child down: the plan, which the caller carries out on the
    /// device that the child was made for.
    fn destroy(self, device: &VulkanDevice) -> (steps: Vec<TeardownStep>)
        ensures
            steps@ == self.teardown(),
    ;
}

/// On a device that start-up yields, the graphics and the compute role
/// share one queue, and the presentation role shares it exactly where its
/// family is the graphics family.
pub proof fn lemma_roles_share_queues(
    device: VulkanDevice,
    candidates: Seq<PhysicalDeviceCandidate>,
)
    requires
        device.stands_fresh_on(candidates),
    ensures
        device.spec_graphics_queue() == device.spec_compute_queue(),
        device.spec_present_queue() == device.spec_graphics_queue()
            <==> device.description().queue_family_indices.present_family
            == device.description().queue_family_indices.graphics_family,
{
}

/// In a teardown nothing is freed before the idle wait: the wait is the
/// first step, and every step that frees or destroys comes after it. The
/// allocator goes before the logical device, and the instance goes last.
pub proof fn lemma_teardown_order(steps: Seq<TeardownStep>, pending: Seq<Seq<VulkanDestructor>>)
    requires
        is_teardown_plan(steps, pending),
    ensures
        steps[0] is WaitIdle,
        forall|i: int| 0 <= i < steps.len() && #[trigger] steps[i] is Release ==> i == 1,
        forall|i: int| 0 <= i < steps.len() && #[trigger] steps[i] is DropAllocator ==> i == 2,
        forall|i: int| 0 <= i < steps.len() && #[trigger] steps[i] is DestroyDevice ==> i == 3,
        forall|i: int| 0 <= i < steps.len() && #[trigger] steps[i] is DestroyInstance ==> i == 6,
        forall|i: int| 0 < i < steps.len() ==> !(#[trigger] steps[i] is WaitIdle),
{
}

/// Selection has one answer: two devices that both meet it are the same
/// device.
pub proof fn lemma_selection_is_unique(
    candidates: Seq<PhysicalDeviceCandidate>,
    a: int,
    b: int,
)
    requires
        is_selected(candidates, a),
        is_selected(candidates, b),
    ensures
        a == b,
{
    if a < b {
        assert(candidates[a].score() < candidates[b].score());
        assert(candidates[b].score() <= candidates[a].score());
    } else if b < a {
        assert(candidates[b].score() < candidates[a].score());
        assert(candidates[a].score() <= candidates[b].score());
    }
}

/// Each family is asked for queues once: three roles on one family give one
/// request, on two families two, and never more than three.
pub proof fn lemma_distinct_families(indices: QueueFamilyIndices)
    ensures
        distinct_families(indices).no_duplicates(),
        1 <= distinct_families(indices).len() <= 3,
        forall|family: u32| #[trigger]
            distinct_families(indices).contains(family) <==> family == indices.graphics_family
                || family == indices.compute_family || family == indices.present_family,
{
    let s = distinct_families(indices);
    assert forall|family: u32| #[trigger]
        s.contains(family) <==> family == indices.graphics_family || family
            == indices.compute_family || family == indices.present_family by {
        if family == indices.graphics_family {
            assert(s[0] == family);
        }
        if family == indices.compute_family && family != indices.graphics_family {
            assert(s[1] == family);
        }
        if family == indices.present_family && family != indices.graphics_family && family
            != indices.compute_family {
            assert(s[s.len() - 1] == family);
        }
    }
}

} // verus!
