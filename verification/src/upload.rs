//! The upload context: one-off GPU work outside the frame loop, submitted
//! to the graphics queue and, where asked for, waited for.

use vstd::prelude::*;
use crate::device::{Queue, TeardownStep, VulkanDevice, VulkanDeviceChild};

verus! {

/// One step of an upload. The steps of one upload work on one command
/// buffer: the one that the first step begins.
#[derive(Clone, Copy, Debug, PartialEq, Eq, Structural)]
pub enum UploadStep {
    /// Take a command buffer from the pool and begin recording.
    BeginCommandBuffer { pool: u64 },
    /// Let the caller's recording logic record into the command buffer.
    Record,
    EndCommandBuffer { pool: u64 },
    ResetFence { fence: u64 },
    /// Submit the command buffer to the queue; the fence is signalled when
    /// the work is complete.
    Submit { queue: Queue, fence: u64 },
    /// Block until the fence is signalled.
    WaitForFence { fence: u64 },
    /// Give the command buffers of the pool back for reuse.
    RecyclePool { pool: u64 },
}

/// What the fence and the command pool of an upload context are created
/// with.
#[derive(Clone, Copy, Debug, PartialEq, Eq, Structural)]
pub struct UploadContextCreateInfo {
    /// Whether the fence is created signalled.
    pub fence_signaled: bool,
    /// The queue family that the command pool serves.
    pub queue_family: u32,
}

/// A fence and a command pool of their own for uploads on one device.
#[derive(Debug, PartialEq, Eq)]
pub struct VulkanUploadContext {
    fence: u64,
    command_pool: u64,
    queue: Queue,
    device: u64,
}

/// The steps of one upload: record, reset the fence, submit, and recycle
/// the pool; where the upload is waited for, the wait comes directly after
/// the submission.
pub open spec fn upload_steps(pool: u64, queue: Queue, fence: u64, wait: bool) -> Seq<UploadStep> {
    let submitted = seq![
        UploadStep::BeginCommandBuffer { pool },
        UploadStep::Record,
        UploadStep::EndCommandBuffer { pool },
        UploadStep::ResetFence { fence },
        UploadStep::Submit { queue, fence },
    ];
    let waited = if wait {
        submitted.push(UploadStep::WaitForFence { fence })
    } else {
        submitted
    };
    waited.push(UploadStep::RecyclePool { pool })
}

impl VulkanUploadContext {
    /// The context's own fence.
    pub closed spec fn fence(&self) -> u64 {
        self.fence
    }

    /// The context's own command pool.
    pub closed spec fn command_pool(&self) -> u64 {
        self.command_pool
    }

    /// The queue that uploads are submitted to.
    pub closed spec fn queue(&self) -> Queue {
        self.queue
    }

    /// The physical device of the device that the context was made for.
    pub closed spec fn device(&self) -> u64 {
        self.device
    }

    /// What the fence and the command pool of a context on `device` are
    /// created with: a fence that is not signalled, and a pool on the
    /// graphics family.
    pub fn create_info(device: &VulkanDevice) -> (info: UploadContextCreateInfo)
        ensures
            info == (UploadContextCreateInfo {
                fence_signaled: false,
                queue_family: device.description().queue_family_indices.graphics_family,
            }),
    {
        UploadContextCreateInfo {
            fence_signaled: false,
            queue_family: device.get_queue_family_indices().graphics_family,
        }
    }

    /// Makes the context of a fence and a command pool that were created
    /// for `device`.
    pub fn new(device: &VulkanDevice, fence: u64, command_pool: u64) -> (context: Self)
        ensures
            context.fence() == fence,
            context.command_pool() == command_pool,
            context.queue() == device.spec_graphics_queue(),
            context.device() == device.description().physical_device,
    {
        VulkanUploadContext {
            fence,
            command_pool,
            queue: device.graphics_queue(),
            device: device.get_description().physical_device,
        }
    }

    /// The physical device of the device that the context was made for.
    pub fn get_device(&self) -> (device: u64)
        ensures
            device == self.device(),
    {
        self.device
    }

    /// The context's own fence.
    pub fn get_fence(&self) -> (fence: u64)
        ensures
            fence == self.fence(),
    {
        self.fence
    }

    /// The steps of an upload that is not waited for. The submission
    /// signals `fence`, or the context's own fence where none is given.
    pub fn submit(&mut self, fence: Option<u64>) -> (steps: Vec<UploadStep>)
        ensures
            *final(self) == *old(self),
            steps@ == upload_steps(
                old(self).command_pool(),
                old(self).queue(),
                match fence {
                    Some(fence) => fence,
                    None => old(self).fence(),
                },
                false,
            ),
    {
        let fence: u64 = match fence {
            Some(fence) => fence,
            None => self.fence,
        };
        let mut steps: Vec<UploadStep> = Vec::new();
        steps.push(UploadStep::BeginCommandBuffer { pool: self.command_pool });
        steps.push(UploadStep::Record);
        steps.push(UploadStep::EndCommandBuffer { pool: self.command_pool });
        steps.push(UploadStep::ResetFence { fence });
        steps.push(UploadStep::Submit { queue: self.queue, fence });
        steps.push(UploadStep::RecyclePool { pool: self.command_pool });
        assert(steps@ =~= upload_steps(self.command_pool(), self.queue(), fence, false));
        steps
    }

    /// The steps of an upload that is waited for: the submission signals
    /// the context's own fence, and the work is complete before the last
    /// step.
    pub fn wait_submit(&mut self) -> (steps: Vec<UploadStep>)
        ensures
            *final(self) == *old(self),
            steps@ == upload_steps(
                old(self).command_pool(),
                old(self).queue(),
                old(self).fence(),
                true,
            ),
    {
        let mut steps: Vec<UploadStep> = Vec::new();
        steps.push(UploadStep::BeginCommandBuffer { pool: self.command_pool });
        steps.push(UploadStep::Record);
        steps.push(UploadStep::EndCommandBuffer { pool: self.command_pool });
        steps.push(UploadStep::ResetFence { fence: self.fence });
        steps.push(UploadStep::Submit { queue: self.queue, fence: self.fence });
        steps.push(UploadStep::WaitForFence { fence: self.fence });
        steps.push(UploadStep::RecyclePool { pool: self.command_pool });
        assert(steps@ =~= upload_steps(self.command_pool(), self.queue(), self.fence(), true));
        steps
    }
}

impl VulkanDeviceChild for VulkanUploadContext {
    closed spec fn teardown(self) -> Seq<TeardownStep> {
        seq![TeardownStep::DestroyFence(self.fence), TeardownStep::DestroyCommandPool(self.command_pool)]
    }

    /// The fence goes first, then the command pool.
    fn destroy(self, device: &VulkanDevice) -> (steps: Vec<TeardownStep>) {
        let mut steps: Vec<TeardownStep> = Vec::new();
        steps.push(TeardownStep::DestroyFence(self.fence));
        steps.push(TeardownStep::DestroyCommandPool(self.command_pool));
        assert(steps@ =~= self.teardown());
        steps
    }
}

/// What taking an upload context down comes to: its fence is destroyed,
/// then its command pool.
pub proof fn lemma_upload_context_teardown(context: VulkanUploadContext)
    ensures
        context.teardown() == seq![
            TeardownStep::DestroyFence(context.fence()),
            TeardownStep::DestroyCommandPool(context.command_pool()),
        ],
{
}

/// An upload that is waited for does not come to its end before its fence
/// is signalled: the wait for that fence is the step directly after the
/// submission, and only the recycling of the pool follows it.
pub proof fn lemma_wait_submit_waits_for_its_fence(pool: u64, queue: Queue, fence: u64)
    ensures
        upload_steps(pool, queue, fence, true).len() == 7,
        upload_steps(pool, queue, fence, true)[4] == (UploadStep::Submit { queue, fence }),
        upload_steps(pool, queue, fence, true)[5] == (UploadStep::WaitForFence { fence }),
        upload_steps(pool, queue, fence, true)[6] == (UploadStep::RecyclePool { pool }),
        forall|i: int|
            0 <= i < 5 ==> !(#[trigger] upload_steps(pool, queue, fence, true)[i] is WaitForFence),
{
}

/// An upload that is not waited for never waits for a fence, whichever
/// fence its submission signals.
pub proof fn lemma_submit_does_not_wait(pool: u64, queue: Queue, fence: u64)
    ensures
        upload_steps(pool, queue, fence, false).len() == 6,
        forall|i: int|
            0 <= i < 6 ==> !(#[trigger] upload_steps(pool, queue, fence, false)[i] is WaitForFence),
{
}

/// The fence of an upload is reset directly before the submission that will
/// signal it, and never after.
pub proof fn lemma_fence_is_reset_before_submission(
    pool: u64,
    queue: Queue,
    fence: u64,
    wait: bool,
)
    ensures
        upload_steps(pool, queue, fence, wait)[3] == (UploadStep::ResetFence { fence }),
        upload_steps(pool, queue, fence, wait)[4] == (UploadStep::Submit { queue, fence }),
        forall|i: int|
            0 <= i < upload_steps(pool, queue, fence, wait).len() && i != 3 ==> !(
            #[trigger] upload_steps(pool, queue, fence, wait)[i] is ResetFence),
{
}

} // verus!
