//! Shaders: a compiled module and the words that it was compiled from.

use vstd::prelude::*;
use vstd::slice::slice_to_vec;
use crate::destruction::VulkanDestructor;
use crate::device::VulkanDevice;
use crate::error::ResourceError;

verus! {

/// A shader module with the bytecode that it was made of, which is kept for
/// a later look at it.
#[derive(Debug, PartialEq, Eq)]
pub struct VulkanShader {
    /// The `VkShaderModule` handle.
    pub module: u64,
    /// The bytecode, in words of 32 bits.
    pub code: Vec<u32>,
}

impl VulkanShader {
    /// The request that frees the shader, as a batch of its own.
    pub open spec fn destruction_batch(self) -> Seq<VulkanDestructor> {
        seq![VulkanDestructor::ShaderModule(self.module)]
    }
}

impl VulkanDevice {
    /// Makes the shader of a module that was created from `data`, or says
    /// that the creation failed. The shader keeps a copy of `data`.
    pub fn create_shader(&self, data: &[u32], outcome: Result<u64, ash::vk::Result>) -> (r: Result<
        VulkanShader,
        ResourceError,
    >)
        ensures
            match r {
                Ok(shader) => outcome matches Ok(module) && shader.module == module
                    && shader.code@ == data@,
                Err(ResourceError::ShaderModuleCreationFailed(code)) => outcome matches Err(c)
                    && c == code,
                Err(_) => false,
            },
    {
        match outcome {
            Ok(module) => Ok(VulkanShader { module, code: slice_to_vec(data) }),
            Err(code) => Err(ResourceError::ShaderModuleCreationFailed(code)),
        }
    }

    /// Gives a shader up: its module goes to the destruction queue as a
    /// batch of its own. Nothing is freed here.
    pub fn destroy_shader(&mut self, shader: VulkanShader)
        ensures
            final(self).description() == old(self).description(),
            final(self).allocator() == old(self).allocator(),
            final(self).pending() == old(self).pending().push(shader.destruction_batch()),
    {
        let mut batch: Vec<VulkanDestructor> = Vec::new();
        batch.push(VulkanDestructor::ShaderModule(shader.module));
        assert(batch@ =~= shader.destruction_batch());
        self.queue_destruction(batch);
    }
}

} // verus!
