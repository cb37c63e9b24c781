//! Numeric values of the Vulkan flag bits that the engine's decisions test or
//! produce, read from `ash` at run time.
//!
//! Each table below is filled by a function whose body Verus does not read:
//! its contract restates the constant definitions of `ash::vk`, and the rest
//! of the crate is proved against those contracts.

use vstd::prelude::*;
use ash::vk;

verus! {

/// Raw bits of the queue capability flags.
pub struct QueueFlagBits {
    pub graphics: u32,
    pub compute: u32,
    pub transfer: u32,
}

/// Bit of `VK_QUEUE_GRAPHICS_BIT`.
pub open spec fn queue_graphics() -> u32 {
    0x1
}

/// Bit of `VK_QUEUE_COMPUTE_BIT`.
pub open spec fn queue_compute() -> u32 {
    0x2
}

/// Bit of `VK_QUEUE_TRANSFER_BIT`.
pub open spec fn queue_transfer() -> u32 {
    0x4
}

/// Reads `ash::vk::QueueFlags::{GRAPHICS, COMPUTE, TRANSFER}` through
/// `QueueFlags::as_raw`. Trusted: the contract repeats the three constants as
/// `ash` defines them (bits 0, 1 and 2).
#[verifier::external_body]
pub(crate) fn queue_flag_bits() -> (bits: QueueFlagBits)
    ensures
        bits.graphics == queue_graphics(),
        bits.compute == queue_compute(),
        bits.transfer == queue_transfer(),
{
    QueueFlagBits {
        graphics: vk::QueueFlags::GRAPHICS.as_raw(),
        compute: vk::QueueFlags::COMPUTE.as_raw(),
        transfer: vk::QueueFlags::TRANSFER.as_raw(),
    }
}

/// Whether every bit of `wanted` is set in `flags`.
pub open spec fn flags_contain(flags: u32, wanted: u32) -> bool {
    flags & wanted == wanted
}

/// Subset test on raw flag words, as the `contains` method of every flag type
/// of `ash::vk` computes it.
pub fn contains(flags: u32, wanted: u32) -> (yes: bool)
    ensures
        yes == flags_contain(flags, wanted),
{
    flags & wanted == wanted
}

/// Raw bits of the shader stage flags, one per stage the engine knows.
#[derive(Clone, Copy, Debug)]
pub struct ShaderStageBits {
    pub vertex: u32,
    pub tessellation_control: u32,
    pub tessellation_evaluation: u32,
    pub geometry: u32,
    pub fragment: u32,
    pub compute: u32,
    pub task: u32,
    pub mesh: u32,
    pub raygen: u32,
}

/// Value of `VK_SHADER_STAGE_VERTEX_BIT`.
pub open spec fn stage_vertex() -> u32 {
    0x1
}

/// Value of `VK_SHADER_STAGE_TESSELLATION_CONTROL_BIT`.
pub open spec fn stage_tessellation_control() -> u32 {
    0x2
}

/// Value of `VK_SHADER_STAGE_TESSELLATION_EVALUATION_BIT`.
pub open spec fn stage_tessellation_evaluation() -> u32 {
    0x4
}

/// Value of `VK_SHADER_STAGE_GEOMETRY_BIT`.
pub open spec fn stage_geometry() -> u32 {
    0x8
}

/// Value of `VK_SHADER_STAGE_FRAGMENT_BIT`.
pub open spec fn stage_fragment() -> u32 {
    0x10
}

/// Value of `VK_SHADER_STAGE_COMPUTE_BIT`.
pub open spec fn stage_compute() -> u32 {
    0x20
}

/// Value of `VK_SHADER_STAGE_TASK_BIT_EXT`.
pub open spec fn stage_task() -> u32 {
    0x40
}

/// Value of `VK_SHADER_STAGE_MESH_BIT_EXT`.
pub open spec fn stage_mesh() -> u32 {
    0x80
}

/// Value of `VK_SHADER_STAGE_RAYGEN_BIT_KHR`.
pub open spec fn stage_raygen() -> u32 {
    0x100
}

/// Reads nine constants of `ash::vk::ShaderStageFlags` through
/// `ShaderStageFlags::as_raw`. Trusted: the contract repeats each constant as
/// `ash` defines it (`VERTEX` is bit 0, then one bit per stage up to
/// `RAYGEN_KHR`, bit 8).
#[verifier::external_body]
pub(crate) fn shader_stage_bits() -> (bits: ShaderStageBits)
    ensures
        bits.vertex == stage_vertex(),
        bits.tessellation_control == stage_tessellation_control(),
        bits.tessellation_evaluation == stage_tessellation_evaluation(),
        bits.geometry == stage_geometry(),
        bits.fragment == stage_fragment(),
        bits.compute == stage_compute(),
        bits.task == stage_task(),
        bits.mesh == stage_mesh(),
        bits.raygen == stage_raygen(),
{
    ShaderStageBits {
        vertex: vk::ShaderStageFlags::VERTEX.as_raw(),
        tessellation_control: vk::ShaderStageFlags::TESSELLATION_CONTROL.as_raw(),
        tessellation_evaluation: vk::ShaderStageFlags::TESSELLATION_EVALUATION.as_raw(),
        geometry: vk::ShaderStageFlags::GEOMETRY.as_raw(),
        fragment: vk::ShaderStageFlags::FRAGMENT.as_raw(),
        compute: vk::ShaderStageFlags::COMPUTE.as_raw(),
        task: vk::ShaderStageFlags::TASK_EXT.as_raw(),
        mesh: vk::ShaderStageFlags::MESH_EXT.as_raw(),
        raygen: vk::ShaderStageFlags::RAYGEN_KHR.as_raw(),
    }
}

/// Raw bits of the memory property flags that buffer and image allocation ask for.
#[derive(Clone, Copy, Debug)]
pub struct MemoryPropertyBits {
    pub device_local: u32,
    pub host_visible: u32,
    pub host_coherent: u32,
}

/// Value of `VK_MEMORY_PROPERTY_DEVICE_LOCAL_BIT`.
pub open spec fn memory_device_local() -> u32 {
    0x1
}

/// Value of `VK_MEMORY_PROPERTY_HOST_VISIBLE_BIT`.
pub open spec fn memory_host_visible() -> u32 {
    0x2
}

/// Value of `VK_MEMORY_PROPERTY_HOST_COHERENT_BIT`.
pub open spec fn memory_host_coherent() -> u32 {
    0x4
}

/// Reads `ash::vk::MemoryPropertyFlags::{DEVICE_LOCAL, HOST_VISIBLE,
/// HOST_COHERENT}` through `MemoryPropertyFlags::as_raw`. Trusted: the
/// contract repeats the three constants as `ash` defines them (bits 0 to 2).
#[verifier::external_body]
pub(crate) fn memory_property_bits() -> (bits: MemoryPropertyBits)
    ensures
        bits.device_local == memory_device_local(),
        bits.host_visible == memory_host_visible(),
        bits.host_coherent == memory_host_coherent(),
{
    MemoryPropertyBits {
        device_local: vk::MemoryPropertyFlags::DEVICE_LOCAL.as_raw(),
        host_visible: vk::MemoryPropertyFlags::HOST_VISIBLE.as_raw(),
        host_coherent: vk::MemoryPropertyFlags::HOST_COHERENT.as_raw(),
    }
}

/// Raw bits of the buffer usage flags of the buffers the engine creates.
#[derive(Clone, Copy, Debug)]
pub struct BufferUsageBits {
    pub transfer_src: u32,
    pub transfer_dst: u32,
    pub uniform_buffer: u32,
    pub index_buffer: u32,
    pub vertex_buffer: u32,
}

/// Value of `VK_BUFFER_USAGE_TRANSFER_SRC_BIT`.
pub open spec fn usage_transfer_src() -> u32 {
    0x1
}

/// Value of `VK_BUFFER_USAGE_TRANSFER_DST_BIT`.
pub open spec fn usage_transfer_dst() -> u32 {
    0x2
}

/// Value of `VK_BUFFER_USAGE_UNIFORM_BUFFER_BIT`.
pub open spec fn usage_uniform_buffer() -> u32 {
    0x10
}

/// Value of `VK_BUFFER_USAGE_INDEX_BUFFER_BIT`.
pub open spec fn usage_index_buffer() -> u32 {
    0x40
}

/// Value of `VK_BUFFER_USAGE_VERTEX_BUFFER_BIT`.
pub open spec fn usage_vertex_buffer() -> u32 {
    0x80
}

/// Reads five constants of `ash::vk::BufferUsageFlags` through
/// `BufferUsageFlags::as_raw`. Trusted: the contract repeats each constant as
/// `ash` defines it.
#[verifier::external_body]
pub(crate) fn buffer_usage_bits() -> (bits: BufferUsageBits)
    ensures
        bits.transfer_src == usage_transfer_src(),
        bits.transfer_dst == usage_transfer_dst(),
        bits.uniform_buffer == usage_uniform_buffer(),
        bits.index_buffer == usage_index_buffer(),
        bits.vertex_buffer == usage_vertex_buffer(),
{
    BufferUsageBits {
        transfer_src: vk::BufferUsageFlags::TRANSFER_SRC.as_raw(),
        transfer_dst: vk::BufferUsageFlags::TRANSFER_DST.as_raw(),
        uniform_buffer: vk::BufferUsageFlags::UNIFORM_BUFFER.as_raw(),
        index_buffer: vk::BufferUsageFlags::INDEX_BUFFER.as_raw(),
        vertex_buffer: vk::BufferUsageFlags::VERTEX_BUFFER.as_raw(),
    }
}

/// Raw bits of the access masks used in image layout transitions.
#[derive(Clone, Copy, Debug)]
pub struct AccessBits {
    pub none: u64,
    pub color_attachment_write: u64,
    pub depth_stencil_attachment_read: u64,
    pub depth_stencil_attachment_write: u64,
}

/// Value of `VK_ACCESS_2_NONE`.
pub open spec fn access_none() -> u64 {
    0x0
}

/// Value of `VK_ACCESS_2_COLOR_ATTACHMENT_WRITE_BIT`.
pub open spec fn access_color_attachment_write() -> u64 {
    0x100
}

/// Value of `VK_ACCESS_2_DEPTH_STENCIL_ATTACHMENT_READ_BIT`.
pub open spec fn access_depth_stencil_attachment_read() -> u64 {
    0x200
}

/// Value of `VK_ACCESS_2_DEPTH_STENCIL_ATTACHMENT_WRITE_BIT`.
pub open spec fn access_depth_stencil_attachment_write() -> u64 {
    0x400
}

/// Reads four constants of `ash::vk::AccessFlags2` through
/// `AccessFlags2::as_raw`. Trusted: the contract repeats each constant as
/// `ash` defines it.
#[verifier::external_body]
pub(crate) fn access_bits() -> (bits: AccessBits)
    ensures
        bits.none == access_none(),
        bits.color_attachment_write == access_color_attachment_write(),
        bits.depth_stencil_attachment_read == access_depth_stencil_attachment_read(),
        bits.depth_stencil_attachment_write == access_depth_stencil_attachment_write(),
{
    AccessBits {
        none: vk::AccessFlags2::NONE.as_raw(),
        color_attachment_write: vk::AccessFlags2::COLOR_ATTACHMENT_WRITE.as_raw(),
        depth_stencil_attachment_read: vk::AccessFlags2::DEPTH_STENCIL_ATTACHMENT_READ.as_raw(),
        depth_stencil_attachment_write: vk::AccessFlags2::DEPTH_STENCIL_ATTACHMENT_WRITE.as_raw(),
    }
}

/// Raw bits of the pipeline stages used in image layout transitions.
#[derive(Clone, Copy, Debug)]
pub struct PipelineStageBits {
    pub top_of_pipe: u64,
    pub early_fragment_tests: u64,
    pub late_fragment_tests: u64,
    pub color_attachment_output: u64,
    pub bottom_of_pipe: u64,
}

/// Value of `VK_PIPELINE_STAGE_2_TOP_OF_PIPE_BIT`.
pub open spec fn pipeline_top_of_pipe() -> u64 {
    0x1
}

/// Value of `VK_PIPELINE_STAGE_2_EARLY_FRAGMENT_TESTS_BIT`.
pub open spec fn pipeline_early_fragment_tests() -> u64 {
    0x100
}

/// Value of `VK_PIPELINE_STAGE_2_LATE_FRAGMENT_TESTS_BIT`.
pub open spec fn pipeline_late_fragment_tests() -> u64 {
    0x200
}

/// Value of `VK_PIPELINE_STAGE_2_COLOR_ATTACHMENT_OUTPUT_BIT`.
pub open spec fn pipeline_color_attachment_output() -> u64 {
    0x400
}

/// Value of `VK_PIPELINE_STAGE_2_BOTTOM_OF_PIPE_BIT`.
pub open spec fn pipeline_bottom_of_pipe() -> u64 {
    0x2000
}

/// Reads five constants of `ash::vk::PipelineStageFlags2` through
/// `PipelineStageFlags2::as_raw`. Trusted: the contract repeats each constant
/// as `ash` defines it.
#[verifier::external_body]
pub(crate) fn pipeline_stage_bits() -> (bits: PipelineStageBits)
    ensures
        bits.top_of_pipe == pipeline_top_of_pipe(),
        bits.early_fragment_tests == pipeline_early_fragment_tests(),
        bits.late_fragment_tests == pipeline_late_fragment_tests(),
        bits.color_attachment_output == pipeline_color_attachment_output(),
        bits.bottom_of_pipe == pipeline_bottom_of_pipe(),
{
    PipelineStageBits {
        top_of_pipe: vk::PipelineStageFlags2::TOP_OF_PIPE.as_raw(),
        early_fragment_tests: vk::PipelineStageFlags2::EARLY_FRAGMENT_TESTS.as_raw(),
        late_fragment_tests: vk::PipelineStageFlags2::LATE_FRAGMENT_TESTS.as_raw(),
        color_attachment_output: vk::PipelineStageFlags2::COLOR_ATTACHMENT_OUTPUT.as_raw(),
        bottom_of_pipe: vk::PipelineStageFlags2::BOTTOM_OF_PIPE.as_raw(),
    }
}

/// Raw values of the two presentation modes the engine chooses between.
#[derive(Clone, Copy, Debug)]
pub struct PresentModes {
    pub mailbox: i32,
    pub fifo: i32,
}

/// Value of `VK_PRESENT_MODE_MAILBOX_KHR`.
pub open spec fn present_mode_mailbox() -> i32 {
    1
}

/// Value of `VK_PRESENT_MODE_FIFO_KHR`.
pub open spec fn present_mode_fifo() -> i32 {
    2
}

/// Reads `ash::vk::PresentModeKHR::{MAILBOX, FIFO}` through
/// `PresentModeKHR::as_raw`. Trusted: the contract repeats the two constants
/// as `ash` defines them.
#[verifier::external_body]
pub(crate) fn present_modes() -> (bits: PresentModes)
    ensures
        bits.mailbox == present_mode_mailbox(),
        bits.fifo == present_mode_fifo(),
{
    PresentModes {
        mailbox: vk::PresentModeKHR::MAILBOX.as_raw(),
        fifo: vk::PresentModeKHR::FIFO.as_raw(),
    }
}

/// Value of `VK_PIPELINE_STAGE_COLOR_ATTACHMENT_OUTPUT_BIT`, the stage at
/// which a frame's submission waits for its image.
pub open spec fn submit_stage_color_attachment_output() -> u32 {
    0x400
}

/// Reads `ash::vk::PipelineStageFlags::COLOR_ATTACHMENT_OUTPUT` through
/// `PipelineStageFlags::as_raw`. Trusted: the contract repeats the constant
/// as `ash` defines it (bit 10).
#[verifier::external_body]
pub(crate) fn color_attachment_output_stage() -> (bits: u32)
    ensures
        bits == submit_stage_color_attachment_output(),
{
    vk::PipelineStageFlags::COLOR_ATTACHMENT_OUTPUT.as_raw()
}

/// Value of `VK_SURFACE_TRANSFORM_IDENTITY_BIT_KHR`.
pub open spec fn transform_identity() -> u32 {
    0x1
}

/// Reads `ash::vk::SurfaceTransformFlagsKHR::IDENTITY` through
/// `SurfaceTransformFlagsKHR::as_raw`. Trusted: the contract repeats the
/// constant as `ash` defines it (bit 0).
#[verifier::external_body]
pub(crate) fn surface_transform_identity() -> (bits: u32)
    ensures
        bits == transform_identity(),
{
    vk::SurfaceTransformFlagsKHR::IDENTITY.as_raw()
}

/// A packed Vulkan API version: variant in the top three bits, then seven
/// bits of major, ten of minor and twelve of patch number.
pub open spec fn packed_api_version(variant: u32, major: u32, minor: u32, patch: u32) -> u32 {
    ((variant << 29u32) | (major << 22u32) | (minor << 12u32) | patch)
}

/// `ash::vk::make_api_version` shifts its four arguments into one word and
/// ors them together; the contract is that expression.
pub assume_specification[ ash::vk::make_api_version ](
    variant: u32,
    major: u32,
    minor: u32,
    patch: u32,
) -> (version: u32)
    ensures
        version == packed_api_version(variant, major, minor, patch),
;

/// Value of `VK_FORMAT_D32_SFLOAT`, the format of the depth image.
pub open spec fn format_d32_sfloat() -> i32 {
    126
}

/// Reads `ash::vk::Format::D32_SFLOAT` through `Format::as_raw`. Trusted:
/// the contract repeats the constant as `ash` defines it.
#[verifier::external_body]
pub(crate) fn depth_format() -> (format: i32)
    ensures
        format == format_d32_sfloat(),
{
    vk::Format::D32_SFLOAT.as_raw()
}

/// The queue family index that stands for "no ownership transfer".
pub open spec fn family_ignored() -> u32 {
    0xFFFF_FFFF
}

/// Reads the constant `ash::vk::QUEUE_FAMILY_IGNORED`. Trusted: `ash` defines
/// it as the all-ones word.
#[verifier::external_body]
pub(crate) fn queue_family_ignored() -> (index: u32)
    ensures
        index == family_ignored(),
{
    vk::QUEUE_FAMILY_IGNORED
}

} // verus!
