//! Device selection, resource planning and destruction bookkeeping for a
//! Vulkan renderer.
//!
//! The crate decides and keeps the books; the caller performs the driver
//! calls. Every decision is a function from plain values to plain values
//! with a contract, and every plan is an ordered list of steps that the
//! caller carries out in that order.

pub mod vk;
pub mod error;
pub mod queue_family;
pub mod swapchain;
pub mod physical_device;
pub mod destruction;
pub mod device;
pub mod texture;
pub mod shader;
pub mod upload;
pub mod engine;
