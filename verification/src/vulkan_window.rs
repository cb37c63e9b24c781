//! The window's swapchain resources and the frame loop that runs on them.
//!
//! The window is a state machine. The embedding program performs one device
//! call at a time and reports how it ended; [`VulkanWindow::render_frame`]
//! answers with the next call to make. Which fence, which semaphores and
//! which command buffer each call uses is decided here.

use vstd::prelude::*;
use crate::command_buffers::{
    color_attachment_barrier, color_attachment_transition, depth_attachment_barrier,
    depth_attachment_transition, present_barrier, present_transition, ImageBarrier, ImageLayout,
};
use crate::swapchain::{
    chosen_extent, chosen_swapchain, Extent2D, SurfaceCapabilities, Swapchain,
};
use crate::memory_utils::{create_buffer, MemoryAllocateInfo};
use crate::physical_device::{is_first_memory_type, MemoryRequirements, MemoryType};
use crate::vulkan::{
    color_attachment_output_stage, depth_format, format_d32_sfloat, memory_device_local,
    memory_property_bits, submit_stage_color_attachment_output,
};
use crate::NUM_FRAMES_IN_FLIGHT;

verus! {

/// Where the window stands in the frame loop.
#[derive(Clone, Copy, Debug, PartialEq, Eq, Structural)]
pub enum FramePhase {
    /// Between frames.
    Idle,
    /// Waiting for the frame slot's previous submission to complete.
    WaitingForFence,
    /// Waiting for the next presentable image.
    Acquiring,
    /// The frame's commands are being recorded for this image.
    Recording { image_index: u32, suboptimal: bool },
    /// The frame's command buffer is being submitted.
    Submitting { image_index: u32, suboptimal: bool },
    /// The image is being queued for presentation.
    Presenting { image_index: u32, suboptimal: bool },
    /// The swapchain is out of date and must be rebuilt before the next
    /// frame.
    NeedsResize,
    /// The old swapchain resources are being replaced.
    Rebuilding,
    /// A device call failed; the swapchain resources must be rebuilt.
    Failed,
}

/// Why the frame loop cannot go on.
#[derive(Clone, Copy, Debug, PartialEq, Eq, Structural)]
pub enum FrameError {
    /// No window is attached.
    NotAttached,
    /// No render context is active, or it was not set up.
    NoRenderContext,
    /// The event does not belong to the phase the window is in.
    OutOfOrder,
    /// The acquired image index does not name a swapchain image.
    ImageIndexOutOfRange,
    /// A device call failed with this raw `VkResult`.
    Device(i32),
}

/// How the last device call ended.
#[derive(Clone, Copy, Debug, PartialEq, Eq, Structural)]
pub enum FrameEvent {
    /// A new frame is asked for.
    Begin,
    /// The slot's fence was waited for and reset.
    FenceReady,
    /// An image was acquired; `suboptimal` is the driver's remark that the
    /// swapchain no longer matches the surface exactly.
    Acquired { image_index: u32, suboptimal: bool },
    /// Acquisition or presentation found the swapchain out of date.
    OutOfDate,
    /// The command buffer was recorded.
    Recorded,
    /// The command buffer was submitted.
    Submitted,
    /// The image was queued for presentation.
    Presented { suboptimal: bool },
    /// The call failed with this raw `VkResult`.
    Failed { code: i32 },
}

/// What a frame records around the render context's own commands.
#[derive(Clone, Copy, Debug, PartialEq, Eq, Structural)]
pub struct FrameRecording {
    /// Frame slot whose command buffer is recorded.
    pub command_buffer: usize,
    /// Swapchain image, and view, that the frame draws into.
    pub image_index: u32,
    /// Recorded first, on the color image.
    pub color_to_attachment: ImageBarrier,
    /// Recorded on the depth image while it is still in no layout.
    pub depth_to_attachment: Option<ImageBarrier>,
    pub render_area: Extent2D,
    /// Recorded last, on the color image.
    pub color_to_present: ImageBarrier,
}

/// How a frame's command buffer is submitted.
#[derive(Clone, Copy, Debug, PartialEq, Eq, Structural)]
pub struct FrameSubmission {
    /// Frame slot whose command buffer is submitted.
    pub command_buffer: usize,
    /// Present-complete semaphore waited for, by frame slot.
    pub wait_semaphore: usize,
    /// Raw `VkPipelineStageFlags` at which the wait takes place.
    pub wait_stage: u32,
    /// Rendering-complete semaphore signaled, by swapchain image.
    pub signal_semaphore: u32,
    /// Fence signaled on completion, by frame slot.
    pub fence: usize,
}

/// How a frame's image is presented.
#[derive(Clone, Copy, Debug, PartialEq, Eq, Structural)]
pub struct FramePresentation {
    pub image_index: u32,
    /// Rendering-complete semaphore waited for, by swapchain image.
    pub wait_semaphore: u32,
}

/// The next thing to do.
#[derive(Clone, Copy, Debug, PartialEq, Eq, Structural)]
pub enum FrameAction {
    /// Wait without timeout for this slot's fence, then reset it.
    WaitAndResetFence { fence: usize },
    /// Acquire the next image without timeout, signaling this slot's
    /// present-complete semaphore.
    Acquire { present_complete: usize },
    Record(FrameRecording),
    Submit(FrameSubmission),
    Present(FramePresentation),
    /// The frame is complete. `suboptimal` repeats the driver's remark, from
    /// acquisition or presentation; it is no error.
    Finished { suboptimal: bool },
    /// Rebuild the swapchain resources, then begin again.
    Resize,
    /// Give up.
    Abort(FrameError),
}

/// All that the frame loop knows of the window.
#[derive(Clone, Copy, Debug, PartialEq, Eq, Structural)]
pub struct WindowState {
    pub extent: Extent2D,
    /// Raw `VkFormat` of the swapchain images.
    pub format: i32,
    /// Number of swapchain images, and so of image views and of
    /// rendering-complete semaphores.
    pub image_count: u32,
    /// Layout the depth image is known to be in.
    pub depth_layout: ImageLayout,
    /// Frame slot of the current, or else the next, frame.
    pub frame_index: usize,
    /// Whether the fence of slot `frame_index` is signaled or will be
    /// signaled by a submission in flight. The fences of the other slots
    /// always are.
    pub fence_armed: bool,
    pub phase: FramePhase,
}

impl WindowState {
    /// What holds of the state of every window.
    pub open spec fn wf(self) -> bool {
        &&& self.frame_index < NUM_FRAMES_IN_FLIGHT
        &&& match self.phase {
            FramePhase::Idle | FramePhase::NeedsResize | FramePhase::Failed => true,
            FramePhase::WaitingForFence => self.fence_armed,
            FramePhase::Acquiring => !self.fence_armed,
            FramePhase::Recording { image_index, .. } => !self.fence_armed && image_index
                < self.image_count,
            FramePhase::Submitting { image_index, .. } => !self.fence_armed && image_index
                < self.image_count,
            FramePhase::Presenting { image_index, .. } => self.fence_armed && image_index
                < self.image_count,
            FramePhase::Rebuilding => self.image_count == 0,
        }
    }

    /// Number of device objects the window owns: surface, swapchain, one
    /// view and one rendering-complete semaphore per image, depth image with
    /// its view and memory, and a fence and a present-complete semaphore per
    /// frame slot. While the swapchain resources are being replaced, only
    /// the surface and the objects of the frame slots count.
    pub open spec fn resource_count(self) -> int {
        if self.phase == FramePhase::Rebuilding {
            1 + 2 * NUM_FRAMES_IN_FLIGHT
        } else {
            2 + 2 * self.image_count + 3 + 2 * NUM_FRAMES_IN_FLIGHT
        }
    }
}

/// State of a window whose swapchain was just created with these parameters
/// and holds `image_count` images.
pub open spec fn attached(swapchain: Swapchain, image_count: u32) -> WindowState {
    WindowState {
        extent: swapchain.extent,
        format: swapchain.format,
        image_count,
        depth_layout: ImageLayout::Undefined,
        frame_index: 0,
        fence_armed: true,
        phase: FramePhase::Idle,
    }
}

/// The frame slot that follows `frame_index`.
pub open spec fn next_slot(frame_index: usize) -> usize {
    ((frame_index + 1) % (NUM_FRAMES_IN_FLIGHT as int)) as usize
}

/// What is recorded for a frame that draws into image `image_index`.
pub open spec fn frame_recording(s: WindowState, image_index: u32) -> FrameRecording {
    FrameRecording {
        command_buffer: s.frame_index,
        image_index,
        color_to_attachment: color_attachment_barrier(),
        depth_to_attachment: if s.depth_layout == ImageLayout::Undefined {
            Some(depth_attachment_barrier())
        } else {
            None
        },
        render_area: s.extent,
        color_to_present: present_barrier(),
    }
}

/// How a frame that drew into image `image_index` is submitted: it waits
/// for the slot's present-complete semaphore and signals the image's
/// rendering-complete semaphore.
pub open spec fn frame_submission(s: WindowState, image_index: u32) -> FrameSubmission {
    FrameSubmission {
        command_buffer: s.frame_index,
        wait_semaphore: s.frame_index,
        wait_stage: submit_stage_color_attachment_output(),
        signal_semaphore: image_index,
        fence: s.frame_index,
    }
}

/// Whether a device call is outstanding in this phase.
pub open spec fn in_frame(phase: FramePhase) -> bool {
    match phase {
        FramePhase::WaitingForFence
        | FramePhase::Acquiring
        | FramePhase::Recording { .. }
        | FramePhase::Submitting { .. }
        | FramePhase::Presenting { .. } => true,
        _ => false,
    }
}

/// The frame loop: the state after `event` and what to do next.
pub open spec fn frame_step(s: WindowState, event: FrameEvent) -> (WindowState, FrameAction) {
    match (s.phase, event) {
        (FramePhase::Idle, FrameEvent::Begin) => if s.fence_armed {
            (
                WindowState { phase: FramePhase::WaitingForFence, ..s },
                FrameAction::WaitAndResetFence { fence: s.frame_index },
            )
        } else {
            (
                WindowState { phase: FramePhase::Acquiring, ..s },
                FrameAction::Acquire { present_complete: s.frame_index },
            )
        },
        (FramePhase::NeedsResize, FrameEvent::Begin) => (s, FrameAction::Resize),
        (FramePhase::WaitingForFence, FrameEvent::FenceReady) => (
            WindowState { phase: FramePhase::Acquiring, fence_armed: false, ..s },
            FrameAction::Acquire { present_complete: s.frame_index },
        ),
        (FramePhase::Acquiring, FrameEvent::Acquired { image_index, suboptimal }) => if image_index
            < s.image_count {
            (
                WindowState { phase: FramePhase::Recording { image_index, suboptimal }, ..s },
                FrameAction::Record(frame_recording(s, image_index)),
            )
        } else {
            (
                WindowState { phase: FramePhase::Failed, ..s },
                FrameAction::Abort(FrameError::ImageIndexOutOfRange),
            )
        },
        (FramePhase::Acquiring, FrameEvent::OutOfDate) => (
            WindowState { phase: FramePhase::NeedsResize, ..s },
            FrameAction::Resize,
        ),
        (FramePhase::Recording { image_index, suboptimal }, FrameEvent::Recorded) => (
            WindowState {
                phase: FramePhase::Submitting { image_index, suboptimal },
                depth_layout: ImageLayout::DepthStencilAttachmentOptimal,
                ..s
            },
            FrameAction::Submit(frame_submission(s, image_index)),
        ),
        (FramePhase::Submitting { image_index, suboptimal }, FrameEvent::Submitted) => (
            WindowState {
                phase: FramePhase::Presenting { image_index, suboptimal },
                fence_armed: true,
                ..s
            },
            FrameAction::Present(FramePresentation { image_index, wait_semaphore: image_index }),
        ),
        (
            FramePhase::Presenting { image_index, suboptimal },
            FrameEvent::Presented { suboptimal: late },
        ) => (
            WindowState { phase: FramePhase::Idle, frame_index: next_slot(s.frame_index), ..s },
            FrameAction::Finished { suboptimal: suboptimal || late },
        ),
        (FramePhase::Presenting { .. }, FrameEvent::OutOfDate) => (
            WindowState {
                phase: FramePhase::NeedsResize,
                frame_index: next_slot(s.frame_index),
                ..s
            },
            FrameAction::Resize,
        ),
        (FramePhase::Presenting { .. }, FrameEvent::Failed { code }) => (
            WindowState { phase: FramePhase::Failed, frame_index: next_slot(s.frame_index), ..s },
            FrameAction::Abort(FrameError::Device(code)),
        ),
        (_, FrameEvent::Failed { code }) => if in_frame(s.phase) {
            (
                WindowState { phase: FramePhase::Failed, ..s },
                FrameAction::Abort(FrameError::Device(code)),
            )
        } else {
            (s, FrameAction::Abort(FrameError::OutOfOrder))
        },
        _ => (s, FrameAction::Abort(FrameError::OutOfOrder)),
    }
}

/// The depth image to create: a single-sampled 2D image with one mip level
/// and one layer, in no layout yet.
#[derive(Clone, Copy, Debug, PartialEq, Eq, Structural)]
pub struct DepthImageCreateInfo {
    pub width: u32,
    pub height: u32,
    pub depth: u32,
    /// Raw `VkFormat`.
    pub format: i32,
    pub mip_levels: u32,
    pub array_layers: u32,
    pub samples: u32,
    pub initial_layout: ImageLayout,
}

/// The depth image that matches a swapchain of this extent.
pub open spec fn depth_image(extent: Extent2D) -> DepthImageCreateInfo {
    DepthImageCreateInfo {
        width: extent.width,
        height: extent.height,
        depth: 1,
        format: format_d32_sfloat(),
        mip_levels: 1,
        array_layers: 1,
        samples: 1,
        initial_layout: ImageLayout::Undefined,
    }
}

/// Describes the depth image for a swapchain of this extent: as wide and
/// as high as the color images, with 32-bit floating-point depth.
pub fn create_depth_resources(extent: Extent2D) -> (info: DepthImageCreateInfo)
    ensures
        info == depth_image(extent),
{
    DepthImageCreateInfo {
        width: extent.width,
        height: extent.height,
        depth: 1,
        format: depth_format(),
        mip_levels: 1,
        array_layers: 1,
        samples: 1,
        initial_layout: ImageLayout::Undefined,
    }
}

/// Chooses the memory of the depth image from what it requires: device
/// local memory of the first type that fits. `None` when the device has no
/// such memory type.
pub fn allocate_depth_memory(memory_types: &Vec<MemoryType>, memory_reqs: &MemoryRequirements) -> (allocation:
    Option<MemoryAllocateInfo>)
    ensures
        match allocation {
            Some(a) => a.allocation_size == memory_reqs.size && is_first_memory_type(
                memory_types@,
                memory_reqs.memory_type_bits,
                memory_device_local(),
                Some(a.memory_type_index),
            ),
            None => is_first_memory_type(
                memory_types@,
                memory_reqs.memory_type_bits,
                memory_device_local(),
                None,
            ),
        },
{
    let memory = memory_property_bits();
    create_buffer(memory_types, memory_reqs, memory.device_local)
}

/// One step in building, or rebuilding, the window's resources.
#[derive(Clone, Copy, Debug, PartialEq, Eq, Structural)]
pub enum WindowStep {
    /// Block until the device is idle, so that nothing in flight refers to
    /// what is destroyed next.
    WaitDeviceIdle,
    /// Destroy the view of each of `count` swapchain images.
    DestroyImageViews { count: u32 },
    /// Destroy the rendering-complete semaphore of each of `count` images.
    DestroyRenderingCompleteSemaphores { count: u32 },
    DestroySwapchain,
    /// Destroy the depth view, then the depth image, then free its memory.
    DestroyDepthResources,
    /// Create the swapchain with these parameters.
    CreateSwapchain(Swapchain),
    /// Fetch the swapchain's images and create one view per image.
    CreateImageViews,
    /// Create depth image, memory and view of this extent.
    CreateDepthResources { extent: Extent2D },
    /// Create one rendering-complete semaphore per swapchain image.
    CreateRenderingCompleteSemaphores,
    /// Create a present-complete semaphore and a signaled fence for each of
    /// `slots` frame slots.
    CreateFrameSync { slots: usize },
    /// Destroy the present-complete semaphore and the fence of each of
    /// `slots` frame slots.
    DestroyFrameSync { slots: usize },
    DestroySurface,
}

/// Steps that build the resources of a newly attached window.
pub open spec fn attach_steps(swapchain: Swapchain) -> Seq<WindowStep> {
    seq![
        WindowStep::CreateSwapchain(swapchain),
        WindowStep::CreateImageViews,
        WindowStep::CreateDepthResources { extent: swapchain.extent },
        WindowStep::CreateRenderingCompleteSemaphores,
        WindowStep::CreateFrameSync { slots: NUM_FRAMES_IN_FLIGHT },
    ]
}

/// Steps that replace the swapchain resources of a window in state `s`:
/// everything old is destroyed, after a full drain of the device, before
/// anything new is created.
pub open spec fn resize_steps(s: WindowState, swapchain: Swapchain) -> Seq<WindowStep> {
    seq![
        WindowStep::WaitDeviceIdle,
        WindowStep::DestroyImageViews { count: s.image_count },
        WindowStep::DestroyRenderingCompleteSemaphores { count: s.image_count },
        WindowStep::DestroySwapchain,
        WindowStep::DestroyDepthResources,
        WindowStep::CreateDepthResources { extent: swapchain.extent },
        WindowStep::CreateSwapchain(swapchain),
        WindowStep::CreateImageViews,
        WindowStep::CreateRenderingCompleteSemaphores,
    ]
}

/// Steps that destroy everything a window in state `s` owns, the device
/// being idle: what depends on the swapchain goes before the swapchain, and
/// the surface goes last.
pub open spec fn teardown_steps(s: WindowState) -> Seq<WindowStep> {
    seq![
        WindowStep::DestroyImageViews { count: s.image_count },
        WindowStep::DestroyRenderingCompleteSemaphores { count: s.image_count },
        WindowStep::DestroyFrameSync { slots: NUM_FRAMES_IN_FLIGHT },
        WindowStep::DestroyDepthResources,
        WindowStep::DestroySwapchain,
        WindowStep::DestroySurface,
    ]
}

/// Whether the swapchain resources may be replaced in this phase: never in
/// the middle of a frame or of another rebuild.
pub open spec fn can_resize(phase: FramePhase) -> bool {
    phase == FramePhase::Idle || phase == FramePhase::NeedsResize || phase == FramePhase::Failed
}

/// State of a window while its resources are built with these parameters.
pub open spec fn building(swapchain: Swapchain) -> WindowState {
    WindowState { image_count: 0, phase: FramePhase::Rebuilding, ..attached(swapchain, 0) }
}

/// State of a window in state `s` while its swapchain resources are
/// replaced. Frame slot and fences carry over; the depth image is new and in
/// no layout.
pub open spec fn rebuilding(s: WindowState, swapchain: Swapchain) -> WindowState {
    WindowState {
        extent: swapchain.extent,
        format: swapchain.format,
        image_count: 0,
        depth_layout: ImageLayout::Undefined,
        phase: FramePhase::Rebuilding,
        ..s
    }
}

/// State once the new swapchain reports `image_count` images.
pub open spec fn rebuilt(s: WindowState, image_count: u32) -> WindowState {
    WindowState { image_count, phase: FramePhase::Idle, ..s }
}

/// The state a window in state `s` reaches by a complete resize to
/// `new_extent`, on a surface with these capabilities and presentation
/// modes, when the new swapchain holds `image_count` images.
pub open spec fn resized(
    s: WindowState,
    capabilities: SurfaceCapabilities,
    offered: Seq<i32>,
    new_extent: Extent2D,
    image_count: u32,
) -> WindowState {
    rebuilt(
        rebuilding(s, chosen_swapchain(new_extent, capabilities, offered, s.format)),
        image_count,
    )
}

/// The window's swapchain resources and its place in the frame loop.
#[derive(Debug)]
pub struct VulkanWindow {
    state: WindowState,
}

impl View for VulkanWindow {
    type V = WindowState;

    closed spec fn view(&self) -> WindowState {
        self.state
    }
}

impl VulkanWindow {
    #[verifier::type_invariant]
    spec fn well_formed(self) -> bool {
        self.state.wf()
    }

    /// Attaches a window to a surface of the given format: chooses the
    /// swapchain parameters and lists the steps that build the resources.
    /// The window is ready for frames once `swapchain_created` has been
    /// told the number of images.
    pub fn new(
        surface_capabilities: &SurfaceCapabilities,
        present_modes: &Vec<i32>,
        format: i32,
        extent: Extent2D,
    ) -> (built: (Self, Vec<WindowStep>))
        ensures
            built.0@ == building(
                chosen_swapchain(extent, *surface_capabilities, present_modes@, format),
            ),
            built.1@ == attach_steps(
                chosen_swapchain(extent, *surface_capabilities, present_modes@, format),
            ),
    {
        let swapchain = Swapchain::new(extent, surface_capabilities, present_modes, format);
        let mut steps: Vec<WindowStep> = Vec::new();
        steps.push(WindowStep::CreateSwapchain(swapchain));
        steps.push(WindowStep::CreateImageViews);
        steps.push(WindowStep::CreateDepthResources { extent: swapchain.extent });
        steps.push(WindowStep::CreateRenderingCompleteSemaphores);
        steps.push(WindowStep::CreateFrameSync { slots: NUM_FRAMES_IN_FLIGHT });
        assert(steps@ =~= attach_steps(swapchain));
        let window = VulkanWindow {
            state: WindowState {
                extent: swapchain.extent,
                format: swapchain.format,
                image_count: 0,
                depth_layout: ImageLayout::Undefined,
                frame_index: 0,
                fence_armed: true,
                phase: FramePhase::Rebuilding,
            },
        };
        (window, steps)
    }

    /// The window's state, which is always well formed.
    pub fn state(&self) -> (s: WindowState)
        ensures
            s == self@,
            s.wf(),
    {
        proof {
            use_type_invariant(self);
        }
        self.state
    }

    /// Number of device objects the window owns.
    pub fn resource_count(&self) -> (count: u64)
        ensures
            count == self@.resource_count(),
    {
        match self.state.phase {
            FramePhase::Rebuilding => 1 + 2 * (NUM_FRAMES_IN_FLIGHT as u64),
            _ => 2 + 2 * (self.state.image_count as u64) + 3 + 2 * (NUM_FRAMES_IN_FLIGHT as u64),
        }
    }

    /// Begins to replace the swapchain resources for a surface that now has
    /// these capabilities, and lists the steps to perform. Refused with
    /// `OutOfOrder`, and nothing changed, in the middle of a frame or of
    /// another rebuild.
    pub fn on_window_resized(
        &mut self,
        surface_capabilities: &SurfaceCapabilities,
        present_modes: &Vec<i32>,
        new_extent: Extent2D,
    ) -> (plan: Result<Vec<WindowStep>, FrameError>)
        ensures
            can_resize(old(self)@.phase) ==> plan is Ok && plan->Ok_0@ == resize_steps(
                old(self)@,
                chosen_swapchain(
                    new_extent,
                    *surface_capabilities,
                    present_modes@,
                    old(self)@.format,
                ),
            ) && final(self)@ == rebuilding(
                old(self)@,
                chosen_swapchain(
                    new_extent,
                    *surface_capabilities,
                    present_modes@,
                    old(self)@.format,
                ),
            ),
            !can_resize(old(self)@.phase) ==> plan == Err::<Vec<WindowStep>, FrameError>(
                FrameError::OutOfOrder,
            ) && final(self)@ == old(self)@,
    {
        proof {
            use_type_invariant(&*self);
        }
        match self.state.phase {
            FramePhase::Idle | FramePhase::NeedsResize | FramePhase::Failed => {},
            _ => {
                return Err(FrameError::OutOfOrder);
            },
        }
        let swapchain = Swapchain::new(
            new_extent,
            surface_capabilities,
            present_modes,
            self.state.format,
        );
        let old_count = self.state.image_count;
        let mut steps: Vec<WindowStep> = Vec::new();
        steps.push(WindowStep::WaitDeviceIdle);
        steps.push(WindowStep::DestroyImageViews { count: old_count });
        steps.push(WindowStep::DestroyRenderingCompleteSemaphores { count: old_count });
        steps.push(WindowStep::DestroySwapchain);
        steps.push(WindowStep::DestroyDepthResources);
        steps.push(WindowStep::CreateDepthResources { extent: swapchain.extent });
        steps.push(WindowStep::CreateSwapchain(swapchain));
        steps.push(WindowStep::CreateImageViews);
        steps.push(WindowStep::CreateRenderingCompleteSemaphores);
        assert(steps@ =~= resize_steps(old(self)@, swapchain));
        let next = WindowState {
            extent: swapchain.extent,
            format: swapchain.format,
            image_count: 0,
            depth_layout: ImageLayout::Undefined,
            frame_index: self.state.frame_index,
            fence_armed: self.state.fence_armed,
            phase: FramePhase::Rebuilding,
        };
        self.state = next;
        Ok(steps)
    }

    /// Ends a build or rebuild: the new swapchain holds `image_count`
    /// images. Refused with `OutOfOrder`, and nothing changed, when no build
    /// is under way.
    pub fn swapchain_created(&mut self, image_count: u32) -> (done: Result<(), FrameError>)
        ensures
            old(self)@.phase == FramePhase::Rebuilding ==> done is Ok && final(self)@ == rebuilt(
                old(self)@,
                image_count,
            ),
            old(self)@.phase != FramePhase::Rebuilding ==> done == Err::<(), FrameError>(
                FrameError::OutOfOrder,
            ) && final(self)@ == old(self)@,
    {
        proof {
            use_type_invariant(&*self);
        }
        match self.state.phase {
            FramePhase::Rebuilding => {
                let next = WindowState {
                    image_count,
                    phase: FramePhase::Idle,
                    ..self.state
                };
                self.state = next;
                Ok(())
            },
            _ => Err(FrameError::OutOfOrder),
        }
    }

    /// Gives the window up and lists the steps that destroy what it owns,
    /// to be performed once the device is idle.
    pub fn teardown(self) -> (steps: Vec<WindowStep>)
        ensures
            steps@ == teardown_steps(self@),
    {
        let count = self.state.image_count;
        let mut steps: Vec<WindowStep> = Vec::new();
        steps.push(WindowStep::DestroyImageViews { count });
        steps.push(WindowStep::DestroyRenderingCompleteSemaphores { count });
        steps.push(WindowStep::DestroyFrameSync { slots: NUM_FRAMES_IN_FLIGHT });
        steps.push(WindowStep::DestroyDepthResources);
        steps.push(WindowStep::DestroySwapchain);
        steps.push(WindowStep::DestroySurface);
        assert(steps@ =~= teardown_steps(self@));
        steps
    }

    /// The barrier that brings a fresh depth image into its attachment
    /// layout, to be recorded in a one-time command buffer before the first
    /// frame. `None`, and nothing changed, when the depth image is already
    /// in that layout or the window is not between frames.
    pub fn initialize_images(&mut self) -> (barrier: Option<ImageBarrier>)
        ensures
            old(self)@.phase == FramePhase::Idle && old(self)@.depth_layout
                == ImageLayout::Undefined ==> barrier == Some(depth_attachment_barrier())
                && final(self)@ == (WindowState {
                depth_layout: ImageLayout::DepthStencilAttachmentOptimal,
                ..old(self)@
            }),
            !(old(self)@.phase == FramePhase::Idle && old(self)@.depth_layout
                == ImageLayout::Undefined) ==> barrier.is_none() && final(self)@ == old(self)@,
    {
        proof {
            use_type_invariant(&*self);
        }
        match (self.state.phase, self.state.depth_layout) {
            (FramePhase::Idle, ImageLayout::Undefined) => {
                let next = WindowState {
                    depth_layout: ImageLayout::DepthStencilAttachmentOptimal,
                    ..self.state
                };
                self.state = next;
                Some(depth_attachment_transition())
            },
            _ => None,
        }
    }

    /// Takes the outcome of the last device call and answers with the next
    /// one to make.
    pub fn render_frame(&mut self, event: FrameEvent) -> (action: FrameAction)
        ensures
            (final(self)@, action) == frame_step(old(self)@, event),
    {
        proof {
            use_type_invariant(&*self);
        }
        let s = self.state;
        let out_of_order = (s, FrameAction::Abort(FrameError::OutOfOrder));
        let (next, action): (WindowState, FrameAction) = match s.phase {
            FramePhase::Idle => match event {
                FrameEvent::Begin => if s.fence_armed {
                    (
                        WindowState { phase: FramePhase::WaitingForFence, ..s },
                        FrameAction::WaitAndResetFence { fence: s.frame_index },
                    )
                } else {
                    (
                        WindowState { phase: FramePhase::Acquiring, ..s },
                        FrameAction::Acquire { present_complete: s.frame_index },
                    )
                },
                _ => out_of_order,
            },
            FramePhase::NeedsResize => match event {
                FrameEvent::Begin => (s, FrameAction::Resize),
                _ => out_of_order,
            },
            FramePhase::Rebuilding | FramePhase::Failed => out_of_order,
            FramePhase::WaitingForFence => match event {
                FrameEvent::FenceReady => (
                    WindowState { phase: FramePhase::Acquiring, fence_armed: false, ..s },
                    FrameAction::Acquire { present_complete: s.frame_index },
                ),
                FrameEvent::Failed { code } => failed(s, code),
                _ => out_of_order,
            },
            FramePhase::Acquiring => match event {
                FrameEvent::Acquired { image_index, suboptimal } => if image_index
                    < s.image_count {
                    (
                        WindowState {
                            phase: FramePhase::Recording { image_index, suboptimal },
                            ..s
                        },
                        FrameAction::Record(record_frame(&s, image_index)),
                    )
                } else {
                    (
                        WindowState { phase: FramePhase::Failed, ..s },
                        FrameAction::Abort(FrameError::ImageIndexOutOfRange),
                    )
                },
                FrameEvent::OutOfDate => (
                    WindowState { phase: FramePhase::NeedsResize, ..s },
                    FrameAction::Resize,
                ),
                FrameEvent::Failed { code } => failed(s, code),
                _ => out_of_order,
            },
            FramePhase::Recording { image_index, suboptimal } => match event {
                FrameEvent::Recorded => (
                    WindowState {
                        phase: FramePhase::Submitting { image_index, suboptimal },
                        depth_layout: ImageLayout::DepthStencilAttachmentOptimal,
                        ..s
                    },
                    FrameAction::Submit(submit_frame(&s, image_index)),
                ),
                FrameEvent::Failed { code } => failed(s, code),
                _ => out_of_order,
            },
            FramePhase::Submitting { image_index, suboptimal } => match event {
                FrameEvent::Submitted => (
                    WindowState {
                        phase: FramePhase::Presenting { image_index, suboptimal },
                        fence_armed: true,
                        ..s
                    },
                    FrameAction::Present(
                        FramePresentation { image_index, wait_semaphore: image_index },
                    ),
                ),
                FrameEvent::Failed { code } => failed(s, code),
                _ => out_of_order,
            },
            FramePhase::Presenting { image_index, suboptimal } => {
                let advanced = advance(s.frame_index);
                match event {
                    FrameEvent::Presented { suboptimal: late } => (
                        WindowState { phase: FramePhase::Idle, frame_index: advanced, ..s },
                        FrameAction::Finished { suboptimal: suboptimal || late },
                    ),
                    FrameEvent::OutOfDate => (
                        WindowState { phase: FramePhase::NeedsResize, frame_index: advanced, ..s },
                        FrameAction::Resize,
                    ),
                    FrameEvent::Failed { code } => (
                        WindowState { phase: FramePhase::Failed, frame_index: advanced, ..s },
                        FrameAction::Abort(FrameError::Device(code)),
                    ),
                    _ => out_of_order,
                }
            },
        };
        self.state = next;
        action
    }
}

/// The slot after `frame_index`, cycling through the frame slots.
fn advance(frame_index: usize) -> (next: usize)
    requires
        frame_index < NUM_FRAMES_IN_FLIGHT,
    ensures
        next == next_slot(frame_index),
        next < NUM_FRAMES_IN_FLIGHT,
{
    (frame_index + 1) % NUM_FRAMES_IN_FLIGHT
}

/// A device call failed in the middle of a frame.
fn failed(s: WindowState, code: i32) -> (out: (WindowState, FrameAction))
    ensures
        out == (
            WindowState { phase: FramePhase::Failed, ..s },
            FrameAction::Abort(FrameError::Device(code)),
        ),
{
    (WindowState { phase: FramePhase::Failed, ..s }, FrameAction::Abort(FrameError::Device(code)))
}

/// What to record for a frame that draws into image `image_index`.
fn record_frame(s: &WindowState, image_index: u32) -> (recording: FrameRecording)
    ensures
        recording == frame_recording(*s, image_index),
{
    let depth_to_attachment = match s.depth_layout {
        ImageLayout::Undefined => Some(depth_attachment_transition()),
        _ => None,
    };
    FrameRecording {
        command_buffer: s.frame_index,
        image_index,
        color_to_attachment: color_attachment_transition(),
        depth_to_attachment,
        render_area: s.extent,
        color_to_present: present_transition(),
    }
}

/// How to submit a frame that drew into image `image_index`.
fn submit_frame(s: &WindowState, image_index: u32) -> (submission: FrameSubmission)
    ensures
        submission == frame_submission(*s, image_index),
{
    FrameSubmission {
        command_buffer: s.frame_index,
        wait_semaphore: s.frame_index,
        wait_stage: color_attachment_output_stage(),
        signal_semaphore: image_index,
        fence: s.frame_index,
    }
}

/// The state after one frame in which every device call succeeds and the
/// driver hands out image `image_index`: the slot's fence is waited for
/// where it is armed, then the image is acquired, recorded into, submitted
/// and presented.
pub open spec fn frame_drawn(s: WindowState, image_index: u32) -> WindowState {
    let begun = frame_step(s, FrameEvent::Begin).0;
    let ready = if s.fence_armed {
        frame_step(begun, FrameEvent::FenceReady).0
    } else {
        begun
    };
    let acquired = frame_step(
        ready,
        FrameEvent::Acquired { image_index, suboptimal: false },
    ).0;
    let recorded = frame_step(acquired, FrameEvent::Recorded).0;
    let submitted = frame_step(recorded, FrameEvent::Submitted).0;
    frame_step(submitted, FrameEvent::Presented { suboptimal: false }).0
}

/// The state after one successful frame for each entry of `images`, the
/// image indices in the order in which the driver hands them out.
pub open spec fn frames_drawn(s: WindowState, images: Seq<u32>) -> WindowState
    decreases images.len(),
{
    if images.len() == 0 {
        s
    } else {
        frame_drawn(frames_drawn(s, images.drop_last()), images.last())
    }
}

/// The frame loop never leaves the well-formed states.
pub proof fn lemma_step_keeps_wf(s: WindowState, event: FrameEvent)
    requires
        s.wf(),
    ensures
        frame_step(s, event).0.wf(),
{
}

/// Between frames, a frame in which every call succeeds runs through wait,
/// acquire, record, submit and present. Fence, present-complete semaphore
/// and command buffer are those of the current frame slot; the
/// rendering-complete semaphore that the submission signals and the
/// presentation waits for is the one of the acquired image. The fence is
/// waited for only while it is armed, so the wait ends. Afterwards the next
/// slot is current.
pub proof fn lemma_frame_sequence(s: WindowState, image_index: u32, suboptimal: bool, late: bool)
    requires
        s.wf(),
        s.phase == FramePhase::Idle,
        image_index < s.image_count,
    ensures
        s.fence_armed ==> frame_step(s, FrameEvent::Begin).1 == (FrameAction::WaitAndResetFence {
            fence: s.frame_index,
        }) && frame_step(frame_step(s, FrameEvent::Begin).0, FrameEvent::FenceReady)
            == frame_step(WindowState { fence_armed: false, ..s }, FrameEvent::Begin),
        ({
            let acquiring = WindowState {
                fence_armed: false,
                phase: FramePhase::Acquiring,
                ..s
            };
            let (recording, record) = frame_step(
                acquiring,
                FrameEvent::Acquired { image_index, suboptimal },
            );
            let (submitting, submit) = frame_step(recording, FrameEvent::Recorded);
            let (presenting, present) = frame_step(submitting, FrameEvent::Submitted);
            let (done, finished) = frame_step(
                presenting,
                FrameEvent::Presented { suboptimal: late },
            );
            &&& frame_step(WindowState { fence_armed: false, ..s }, FrameEvent::Begin) == (
                acquiring,
                FrameAction::Acquire { present_complete: s.frame_index },
            )
            &&& record == FrameAction::Record(frame_recording(s, image_index))
            &&& submit == FrameAction::Submit(
                FrameSubmission {
                    command_buffer: s.frame_index,
                    wait_semaphore: s.frame_index,
                    wait_stage: submit_stage_color_attachment_output(),
                    signal_semaphore: image_index,
                    fence: s.frame_index,
                },
            )
            &&& present == FrameAction::Present(
                FramePresentation { image_index, wait_semaphore: image_index },
            )
            &&& finished == (FrameAction::Finished { suboptimal: suboptimal || late })
            &&& done == (WindowState {
                frame_index: next_slot(s.frame_index),
                fence_armed: true,
                depth_layout: ImageLayout::DepthStencilAttachmentOptimal,
                ..s
            })
        }),
{
}

/// Whatever happens, the frame loop names only fences, semaphores and
/// command buffers of an existing frame slot, and only images, with their
/// rendering-complete semaphores, that the swapchain holds.
pub proof fn lemma_actions_in_range(s: WindowState, event: FrameEvent)
    requires
        s.wf(),
    ensures
        match frame_step(s, event).1 {
            FrameAction::WaitAndResetFence { fence } => fence < NUM_FRAMES_IN_FLIGHT,
            FrameAction::Acquire { present_complete } => present_complete < NUM_FRAMES_IN_FLIGHT,
            FrameAction::Record(recording) => recording.command_buffer < NUM_FRAMES_IN_FLIGHT
                && recording.image_index < s.image_count,
            FrameAction::Submit(submission) => submission.command_buffer < NUM_FRAMES_IN_FLIGHT
                && submission.wait_semaphore < NUM_FRAMES_IN_FLIGHT && submission.fence
                < NUM_FRAMES_IN_FLIGHT && submission.signal_semaphore < s.image_count,
            FrameAction::Present(presentation) => presentation.image_index < s.image_count
                && presentation.wait_semaphore < s.image_count,
            _ => true,
        },
{
}

/// A fence is waited for only while it is armed, that is, signaled or
/// about to be signaled by a submission in flight: no wait can last forever.
/// And the fence is armed again by the frame's own submission.
pub proof fn lemma_waits_only_for_armed_fence(s: WindowState, event: FrameEvent)
    requires
        s.wf(),
    ensures
        frame_step(s, event).1 is WaitAndResetFence ==> s.fence_armed && frame_step(
            s,
            event,
        ).1 == (FrameAction::WaitAndResetFence { fence: s.frame_index }),
        frame_step(s, event).1 is Present ==> frame_step(s, event).0.fence_armed,
        frame_step(s, event).0.phase == FramePhase::Idle ==> frame_step(s, event).0.fence_armed
            || s.phase == FramePhase::Idle,
{
}

/// The depth image is transitioned exactly while it is in no layout, and a
/// recorded frame leaves it in its attachment layout: steady-state frames
/// record no depth transition.
pub proof fn lemma_depth_transition_once(s: WindowState, event: FrameEvent)
    requires
        s.wf(),
    ensures
        frame_step(s, event).1 matches FrameAction::Record(recording)
            ==> (recording.depth_to_attachment is Some <==> s.depth_layout
            == ImageLayout::Undefined),
        frame_step(s, event).1 is Submit ==> frame_step(s, event).0.depth_layout
            == ImageLayout::DepthStencilAttachmentOptimal,
        s.depth_layout == ImageLayout::DepthStencilAttachmentOptimal ==> frame_step(
            s,
            event,
        ).0.depth_layout == ImageLayout::DepthStencilAttachmentOptimal,
{
}

/// A successful frame leaves the window between frames, in the next slot,
/// with every fence armed and the depth image in its attachment layout.
pub proof fn lemma_frame_drawn(s: WindowState, image_index: u32)
    requires
        s.wf(),
        s.phase == FramePhase::Idle,
        image_index < s.image_count,
    ensures
        frame_drawn(s, image_index) == (WindowState {
            frame_index: next_slot(s.frame_index),
            fence_armed: true,
            depth_layout: ImageLayout::DepthStencilAttachmentOptimal,
            ..s
        }),
        frame_drawn(s, image_index).wf(),
{
    lemma_frame_sequence(s, image_index, false, false);
}

/// After `k` successful frames the current slot is the starting slot moved
/// on `k` times around the ring of frame slots, whichever images the driver
/// handed out.
pub proof fn lemma_frame_index_cycles(s: WindowState, images: Seq<u32>)
    requires
        s.wf(),
        s.phase == FramePhase::Idle,
        forall|i: int| 0 <= i < images.len() ==> images[i] < s.image_count,
    ensures
        frames_drawn(s, images).frame_index == (s.frame_index + images.len()) % (
        NUM_FRAMES_IN_FLIGHT as int),
        frames_drawn(s, images).phase == FramePhase::Idle,
        frames_drawn(s, images).image_count == s.image_count,
        frames_drawn(s, images).extent == s.extent,
        frames_drawn(s, images).wf(),
    decreases images.len(),
{
    if images.len() > 0 {
        lemma_frame_index_cycles(s, images.drop_last());
        lemma_frame_drawn(frames_drawn(s, images.drop_last()), images.last());
    }
}

/// A window that was just attached and draws `k` frames ends in slot
/// `k mod N`, where `N` is the number of frames in flight.
pub proof fn lemma_frame_index_after_attach(swapchain: Swapchain, image_count: u32, images: Seq<u32>)
    requires
        forall|i: int| 0 <= i < images.len() ==> images[i] < image_count,
    ensures
        frames_drawn(rebuilt(building(swapchain), image_count), images).frame_index
            == images.len() % (NUM_FRAMES_IN_FLIGHT as nat),
{
    lemma_frame_index_cycles(rebuilt(building(swapchain), image_count), images);
}

/// Any `N` frames in a row use each of the `N` frame slots exactly once:
/// the slots of three consecutive frames differ from each other, and the
/// fourth frame is back in the slot of the first.
pub proof fn lemma_slots_visited_once(frame_index: usize)
    requires
        frame_index < NUM_FRAMES_IN_FLIGHT,
    ensures
        next_slot(frame_index) < NUM_FRAMES_IN_FLIGHT,
        next_slot(frame_index) != frame_index,
        next_slot(next_slot(frame_index)) != frame_index,
        next_slot(next_slot(frame_index)) != next_slot(frame_index),
        next_slot(next_slot(next_slot(frame_index))) == frame_index,
{
}

/// Resizing twice in a row to the same size, on the same surface, leaves
/// the window as resizing once does: same extent, same resources, and no
/// more of them. Each resize destroys one view and one rendering-complete
/// semaphore for each image the window held before.
pub proof fn lemma_resize_idempotent(
    s: WindowState,
    capabilities: SurfaceCapabilities,
    offered: Seq<i32>,
    new_extent: Extent2D,
    image_count: u32,
)
    requires
        s.wf(),
        can_resize(s.phase),
    ensures
        ({
            let once = resized(s, capabilities, offered, new_extent, image_count);
            let twice = resized(once, capabilities, offered, new_extent, image_count);
            &&& once.wf()
            &&& can_resize(once.phase)
            &&& twice == once
            &&& twice.extent == once.extent
            &&& twice.resource_count() == once.resource_count()
            &&& once.extent == chosen_extent(capabilities, new_extent)
            &&& resize_steps(
                once,
                chosen_swapchain(new_extent, capabilities, offered, once.format),
            )[1] == (WindowStep::DestroyImageViews { count: image_count })
            &&& resize_steps(
                once,
                chosen_swapchain(new_extent, capabilities, offered, once.format),
            )[2] == (WindowStep::DestroyRenderingCompleteSemaphores { count: image_count })
        }),
{
}

} // verus!
