//! Deferred destruction: requests to free GPU objects wait in a queue until
//! the device is known to be idle.

use vstd::prelude::*;

verus! {

/// A region of device memory that the allocator handed out, bound to one
/// resource at a time.
#[derive(Debug, PartialEq, Eq)]
pub struct Allocation {
    /// The `VkDeviceMemory` handle of the block that holds the region.
    pub memory: u64,
    /// Where the region starts in that block.
    pub offset: u64,
    /// How many bytes the region has.
    pub size: u64,
}

/// A request to free one API object or one allocation.
#[derive(Debug, PartialEq, Eq)]
pub enum VulkanDestructor {
    Image(u64),
    ImageView(u64),
    Sampler(u64),
    ShaderModule(u64),
    Allocation(Allocation),
}

/// The requests of each batch of `batches`, in order.
pub open spec fn batch_views(batches: Seq<Vec<VulkanDestructor>>) -> Seq<Seq<VulkanDestructor>> {
    batches.map_values(|batch: Vec<VulkanDestructor>| batch@)
}

/// The requests that wait for the device to fall idle, batch by batch in the
/// order in which they came.
#[derive(Debug)]
pub struct DestructionQueue {
    batches: Vec<Vec<VulkanDestructor>>,
}

impl View for DestructionQueue {
    type V = Seq<Seq<VulkanDestructor>>;

    closed spec fn view(&self) -> Seq<Seq<VulkanDestructor>> {
        batch_views(self.batches@)
    }
}

impl DestructionQueue {
    /// A queue in which nothing waits.
    pub fn new() -> (queue: Self)
        ensures
            queue@ == Seq::<Seq<VulkanDestructor>>::empty(),
    {
        let queue = DestructionQueue { batches: Vec::new() };
        assert(queue@ =~= Seq::<Seq<VulkanDestructor>>::empty());
        queue
    }

    /// How many batches wait.
    pub fn len(&self) -> (n: usize)
        ensures
            n == self@.len(),
    {
        self.batches.len()
    }

    /// Takes in the requests of one resource as one batch, behind all that
    /// wait already. Nothing is freed.
    pub fn queue_destruction(&mut self, batch: Vec<VulkanDestructor>)
        ensures
            final(self)@ == old(self)@.push(batch@),
    {
        self.batches.push(batch);
        assert(self@ =~= old(self)@.push(batch@));
    }

    /// Hands out every batch that waits and leaves the queue empty.
    ///
    /// The caller frees what it gets, so it calls this only once an idle
    /// wait of the whole device has completed.
    pub fn release_after_idle_wait(&mut self) -> (released: Vec<Vec<VulkanDestructor>>)
        ensures
            batch_views(released@) == old(self)@,
            final(self)@ == Seq::<Seq<VulkanDestructor>>::empty(),
    {
        let mut released: Vec<Vec<VulkanDestructor>> = Vec::new();
        released.append(&mut self.batches);
        assert(released@ =~= old(self).batches@);
        assert(self@ =~= Seq::<Seq<VulkanDestructor>>::empty());
        released
    }
}

} // verus!
