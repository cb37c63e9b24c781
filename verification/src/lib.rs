//! Decision core of a small Vulkan rendering engine.
//!
//! Everything that the engine decides — which queue families to use, how a
//! swapchain is sized, in which order a frame is acquired, recorded, submitted
//! and presented, which semaphore guards which step — is computed here on
//! plain values, with machine-checked contracts. Device calls themselves are
//! left to the embedding program, which hands their results back in.

use vstd::prelude::*;

pub mod vulkan;
pub mod command_buffers;
pub mod device;
pub mod engine;
pub mod memory_utils;
pub mod mesh_utils;
pub mod model;
pub mod physical_device;
pub mod render_context;
pub mod shader_utils;
pub mod swapchain;
pub mod vulkan_window;

verus! {

/// Number of frames that may be in flight on the GPU at once.
pub const NUM_FRAMES_IN_FLIGHT: usize = 3;

} // verus!
