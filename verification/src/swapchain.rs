//! Parameters of the swapchain, chosen from what the surface reports.

use vstd::prelude::*;
use crate::vulkan::{
    contains, flags_contain, present_mode_fifo, present_mode_mailbox, present_modes,
    surface_transform_identity, transform_identity,
};

verus! {

/// Width and height of a surface or image, in pixels.
#[derive(Clone, Copy, Debug, PartialEq, Eq, Structural)]
pub struct Extent2D {
    pub width: u32,
    pub height: u32,
}

/// What the surface reports of itself, as plain values.
#[derive(Clone, Copy, Debug, PartialEq, Eq, Structural)]
pub struct SurfaceCapabilities {
    pub min_image_count: u32,
    /// Zero when the surface sets no upper limit.
    pub max_image_count: u32,
    /// Width `u32::MAX` marks the extent as left to the swapchain.
    pub current_extent: Extent2D,
    /// Raw `VkSurfaceTransformFlagsKHR`.
    pub supported_transforms: u32,
    /// Raw `VkSurfaceTransformFlagBitsKHR`.
    pub current_transform: u32,
}

/// The surface's own extent, or the window's size where the surface leaves
/// the extent open.
pub open spec fn chosen_extent(capabilities: SurfaceCapabilities, window_size: Extent2D) -> Extent2D {
    if capabilities.current_extent.width == u32::MAX {
        window_size
    } else {
        capabilities.current_extent
    }
}

/// Identity where the surface supports it, else whatever transform is
/// current.
pub open spec fn chosen_pre_transform(capabilities: SurfaceCapabilities) -> u32 {
    if flags_contain(capabilities.supported_transforms, transform_identity()) {
        transform_identity()
    } else {
        capabilities.current_transform
    }
}

/// Mailbox where it is offered, else FIFO, which every surface supports.
pub open spec fn chosen_present_mode(offered: Seq<i32>) -> i32 {
    if offered.contains(present_mode_mailbox()) {
        present_mode_mailbox()
    } else {
        present_mode_fifo()
    }
}

/// One image more than the surface's minimum, held to the surface's maximum
/// where that is not zero, and to the largest `u32` in any case.
pub open spec fn chosen_image_count(capabilities: SurfaceCapabilities) -> u32 {
    let desired = capabilities.min_image_count + 1;
    if capabilities.max_image_count > 0 && desired > capabilities.max_image_count {
        capabilities.max_image_count
    } else if desired > u32::MAX {
        u32::MAX
    } else {
        desired as u32
    }
}

/// Resolution of the swapchain images.
pub fn choose_extent(capabilities: &SurfaceCapabilities, window_size: Extent2D) -> (extent:
    Extent2D)
    ensures
        extent == chosen_extent(*capabilities, window_size),
{
    if capabilities.current_extent.width == u32::MAX {
        window_size
    } else {
        capabilities.current_extent
    }
}

/// Transform applied to images before presentation.
pub fn choose_pre_transform(capabilities: &SurfaceCapabilities) -> (transform: u32)
    ensures
        transform == chosen_pre_transform(*capabilities),
{
    let identity = surface_transform_identity();
    if contains(capabilities.supported_transforms, identity) {
        identity
    } else {
        capabilities.current_transform
    }
}

/// Presentation mode: low latency without blocking where the surface offers
/// it, FIFO otherwise.
pub fn choose_present_mode(offered: &Vec<i32>) -> (mode: i32)
    ensures
        mode == chosen_present_mode(offered@),
{
    let modes = present_modes();
    let mut i: usize = 0;
    while i < offered.len()
        invariant
            i <= offered.len(),
            modes.mailbox == present_mode_mailbox(),
            forall|j: int| 0 <= j < i ==> offered@[j] != present_mode_mailbox(),
        decreases offered.len() - i,
    {
        if offered[i] == modes.mailbox {
            return modes.mailbox;
        }
        i += 1;
    }
    modes.fifo
}

/// Number of images to ask the swapchain for.
pub fn choose_image_count(capabilities: &SurfaceCapabilities) -> (count: u32)
    ensures
        count == chosen_image_count(*capabilities),
{
    let desired: u32 = if capabilities.min_image_count < u32::MAX {
        capabilities.min_image_count + 1
    } else {
        u32::MAX
    };
    if capabilities.max_image_count > 0 && (desired > capabilities.max_image_count
        || capabilities.min_image_count == u32::MAX) {
        capabilities.max_image_count
    } else {
        desired
    }
}

/// The parameters a swapchain is created with.
#[derive(Clone, Copy, Debug, PartialEq, Eq, Structural)]
pub struct Swapchain {
    /// Least number of images asked for; the driver may create more.
    pub min_image_count: u32,
    /// Raw `VkFormat` of the images.
    pub format: i32,
    pub extent: Extent2D,
    /// Raw `VkSurfaceTransformFlagBitsKHR`.
    pub pre_transform: u32,
    /// Raw `VkPresentModeKHR`.
    pub present_mode: i32,
}

/// The swapchain parameters that follow from a surface's report.
pub open spec fn chosen_swapchain(
    window_size: Extent2D,
    capabilities: SurfaceCapabilities,
    offered: Seq<i32>,
    format: i32,
) -> Swapchain {
    Swapchain {
        min_image_count: chosen_image_count(capabilities),
        format,
        extent: chosen_extent(capabilities, window_size),
        pre_transform: chosen_pre_transform(capabilities),
        present_mode: chosen_present_mode(offered),
    }
}

impl Swapchain {
    /// Chooses image count, extent, pre-transform and presentation mode for
    /// a surface of the given format.
    pub fn new(
        window_size: Extent2D,
        surface_capabilities: &SurfaceCapabilities,
        present_modes: &Vec<i32>,
        format: i32,
    ) -> (swapchain: Self)
        ensures
            swapchain == chosen_swapchain(
                window_size,
                *surface_capabilities,
                present_modes@,
                format,
            ),
    {
        Swapchain {
            min_image_count: choose_image_count(surface_capabilities),
            format,
            extent: choose_extent(surface_capabilities, window_size),
            pre_transform: choose_pre_transform(surface_capabilities),
            present_mode: choose_present_mode(present_modes),
        }
    }
}

} // verus!
