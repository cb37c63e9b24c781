//! Image layout transitions and the order in which a command buffer is
//! reset, recorded and submitted.

use vstd::prelude::*;
use crate::vulkan::{
    access_bits, access_color_attachment_write, access_depth_stencil_attachment_read,
    access_depth_stencil_attachment_write, access_none, family_ignored, pipeline_bottom_of_pipe,
    pipeline_color_attachment_output, pipeline_early_fragment_tests,
    pipeline_late_fragment_tests, pipeline_stage_bits, pipeline_top_of_pipe,
    queue_family_ignored,
};

verus! {

/// The image layouts the engine moves its targets between.
#[derive(Clone, Copy, Debug, PartialEq, Eq, Structural)]
pub enum ImageLayout {
    /// Contents are not defined: a fresh image, or one whose contents may be
    /// discarded.
    Undefined,
    ColorAttachmentOptimal,
    DepthStencilAttachmentOptimal,
    /// Ready to be handed to the presentation engine.
    PresentSrc,
}

/// Which aspect of an image a barrier covers.
#[derive(Clone, Copy, Debug, PartialEq, Eq, Structural)]
pub enum ImageAspect {
    Color,
    Depth,
}

/// One image memory barrier: a layout change with the accesses and stages
/// it orders. It always covers mip level 0 and array layer 0 of its aspect.
#[derive(Clone, Copy, Debug, PartialEq, Eq, Structural)]
pub struct ImageBarrier {
    pub old_layout: ImageLayout,
    pub new_layout: ImageLayout,
    /// Raw `VkAccessFlags2`.
    pub src_access_mask: u64,
    pub dst_access_mask: u64,
    /// Raw `VkPipelineStageFlags2`.
    pub src_stage_mask: u64,
    pub dst_stage_mask: u64,
    pub src_queue_family_index: u32,
    pub dst_queue_family_index: u32,
    pub aspect: ImageAspect,
    pub base_mip_level: u32,
    pub level_count: u32,
    pub base_array_layer: u32,
    pub layer_count: u32,
}

/// The barrier that `record_image_layout_transition` describes.
pub open spec fn layout_transition(
    old_layout: ImageLayout,
    new_layout: ImageLayout,
    src_access_mask: u64,
    dst_access_mask: u64,
    src_stage_mask: u64,
    dst_stage_mask: u64,
    aspect: ImageAspect,
) -> ImageBarrier {
    ImageBarrier {
        old_layout,
        new_layout,
        src_access_mask,
        dst_access_mask,
        src_stage_mask,
        dst_stage_mask,
        src_queue_family_index: family_ignored(),
        dst_queue_family_index: family_ignored(),
        aspect,
        base_mip_level: 0,
        level_count: 1,
        base_array_layer: 0,
        layer_count: 1,
    }
}

/// Describes the barrier that moves one image from `old_layout` to
/// `new_layout` without changing queue ownership.
pub fn record_image_layout_transition(
    old_layout: ImageLayout,
    new_layout: ImageLayout,
    src_access_mask: u64,
    dst_access_mask: u64,
    src_stage_mask: u64,
    dst_stage_mask: u64,
    aspect: ImageAspect,
) -> (barrier: ImageBarrier)
    ensures
        barrier == layout_transition(
            old_layout,
            new_layout,
            src_access_mask,
            dst_access_mask,
            src_stage_mask,
            dst_stage_mask,
            aspect,
        ),
{
    let ignored = queue_family_ignored();
    ImageBarrier {
        old_layout,
        new_layout,
        src_access_mask,
        dst_access_mask,
        src_stage_mask,
        dst_stage_mask,
        src_queue_family_index: ignored,
        dst_queue_family_index: ignored,
        aspect,
        base_mip_level: 0,
        level_count: 1,
        base_array_layer: 0,
        layer_count: 1,
    }
}

/// A freshly acquired color image becomes a color attachment; what it held
/// is discarded.
pub open spec fn color_attachment_barrier() -> ImageBarrier {
    layout_transition(
        ImageLayout::Undefined,
        ImageLayout::ColorAttachmentOptimal,
        access_none(),
        access_color_attachment_write(),
        pipeline_color_attachment_output(),
        pipeline_color_attachment_output(),
        ImageAspect::Color,
    )
}

/// A fresh depth image becomes a depth attachment, ordered before the
/// fragment tests that read and write it.
pub open spec fn depth_attachment_barrier() -> ImageBarrier {
    layout_transition(
        ImageLayout::Undefined,
        ImageLayout::DepthStencilAttachmentOptimal,
        access_none(),
        access_depth_stencil_attachment_read() | access_depth_stencil_attachment_write(),
        pipeline_top_of_pipe(),
        pipeline_early_fragment_tests() | pipeline_late_fragment_tests(),
        ImageAspect::Depth,
    )
}

/// A rendered color image is handed over for presentation.
pub open spec fn present_barrier() -> ImageBarrier {
    layout_transition(
        ImageLayout::ColorAttachmentOptimal,
        ImageLayout::PresentSrc,
        access_color_attachment_write(),
        access_none(),
        pipeline_color_attachment_output(),
        pipeline_bottom_of_pipe(),
        ImageAspect::Color,
    )
}

/// Barrier recorded before a frame draws into its color image.
pub fn color_attachment_transition() -> (barrier: ImageBarrier)
    ensures
        barrier == color_attachment_barrier(),
{
    let access = access_bits();
    let stages = pipeline_stage_bits();
    record_image_layout_transition(
        ImageLayout::Undefined,
        ImageLayout::ColorAttachmentOptimal,
        access.none,
        access.color_attachment_write,
        stages.color_attachment_output,
        stages.color_attachment_output,
        ImageAspect::Color,
    )
}

/// Barrier recorded once for a depth image that was just created.
pub fn depth_attachment_transition() -> (barrier: ImageBarrier)
    ensures
        barrier == depth_attachment_barrier(),
{
    let access = access_bits();
    let stages = pipeline_stage_bits();
    record_image_layout_transition(
        ImageLayout::Undefined,
        ImageLayout::DepthStencilAttachmentOptimal,
        access.none,
        access.depth_stencil_attachment_read | access.depth_stencil_attachment_write,
        stages.top_of_pipe,
        stages.early_fragment_tests | stages.late_fragment_tests,
        ImageAspect::Depth,
    )
}

/// Barrier recorded after a frame has drawn into its color image.
pub fn present_transition() -> (barrier: ImageBarrier)
    ensures
        barrier == present_barrier(),
{
    let access = access_bits();
    let stages = pipeline_stage_bits();
    record_image_layout_transition(
        ImageLayout::ColorAttachmentOptimal,
        ImageLayout::PresentSrc,
        access.color_attachment_write,
        access.none,
        stages.color_attachment_output,
        stages.bottom_of_pipe,
        ImageAspect::Color,
    )
}

/// One step in the life of a command buffer.
#[derive(Clone, Copy, Debug, PartialEq, Eq, Structural)]
pub enum CommandStep {
    /// Reset the buffer and release what it held.
    Reset,
    /// Begin recording for a single submission.
    Begin,
    /// Record the caller's commands.
    Body,
    /// End recording.
    End,
    /// Submit to the graphics queue, with no semaphore and no fence.
    Submit,
    /// Block until the graphics queue is idle.
    WaitQueueIdle,
}

/// Steps that record one command buffer around the caller's commands.
pub open spec fn recording_steps() -> Seq<CommandStep> {
    seq![CommandStep::Reset, CommandStep::Begin, CommandStep::Body, CommandStep::End]
}

/// Steps that record the one-time command buffer and run it to completion:
/// the queue is drained before the submission and again after it.
pub open spec fn one_time_steps() -> Seq<CommandStep> {
    recording_steps() + seq![
        CommandStep::WaitQueueIdle,
        CommandStep::Submit,
        CommandStep::WaitQueueIdle,
    ]
}

} // verus!
