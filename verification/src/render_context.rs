//! Render contexts: the drawing strategies that plug into the frame loop.
//!
//! With shader objects there is no pipeline object that carries state from
//! one draw to the next. Each context therefore lists, for every frame, the
//! complete dynamic state before it binds its shaders and draws.

use vstd::prelude::*;
use crate::command_buffers::ImageLayout;
use crate::memory_utils::{buffer_create_info, BufferCreateInfo};
use crate::mesh_utils::{mesh_buffers, uploadable, MeshError, VulkanMesh, VERTEX_SIZE};
use crate::model::Model;
use crate::shader_utils::{
    create_shader_object, describes, group_bindings, has_nul, is_grouping, DescriptorSetLayout, Shader,
    ShaderCreateInfo, ShaderError, VkDescriptorSetLayoutBinding,
};
use crate::swapchain::Extent2D;
use crate::vulkan::{
    buffer_usage_bits, memory_host_coherent, memory_host_visible, memory_property_bits,
    usage_uniform_buffer,
};

verus! {

/// The drawing strategies.
#[derive(Debug, Clone, Copy, PartialEq, Eq, Structural)]
pub enum RenderContextType {
    /// Three vertices generated in the vertex shader.
    Triangle,
    /// An indexed mesh with a uniform buffer and depth testing.
    MeshSimple,
}

/// Bit pattern of the single-precision number 1.0.
pub const ONE: u32 = 0x3F80_0000;

/// Bytes of the uniform block: model, view and projection matrix, sixteen
/// single-precision numbers each.
pub const UNIFORM_BLOCK_SIZE: u64 = 192;

/// Number of descriptor sets, and of uniform buffer descriptors, in the
/// descriptor pool of a mesh context.
pub const DESCRIPTOR_POOL_SIZE: u32 = 32;

/// What happens to an attachment's contents when rendering ends.
#[derive(Debug, Clone, Copy, PartialEq, Eq, Structural)]
pub enum StoreOp {
    Store,
    DontCare,
}

/// The value a target is cleared to: bit patterns of four single-precision
/// numbers.
#[derive(Debug, Clone, Copy, PartialEq, Eq, Structural)]
pub struct ClearValue {
    pub r: u32,
    pub g: u32,
    pub b: u32,
    pub a: u32,
}

/// A render target. It is cleared when rendering begins.
#[derive(Debug, Clone, Copy, PartialEq, Eq, Structural)]
pub struct Attachment {
    pub image_layout: ImageLayout,
    pub store_op: StoreOp,
    pub clear_value: ClearValue,
}

/// Opaque black.
pub open spec fn clear_black() -> ClearValue {
    ClearValue { r: 0, g: 0, b: 0, a: ONE }
}

/// Layout of the vertex buffer: one binding of tightly packed positions,
/// read per vertex as three single-precision numbers at location 0.
#[derive(Debug, Clone, Copy, PartialEq, Eq, Structural)]
pub struct VertexInput {
    pub binding: u32,
    pub stride: u32,
    pub location: u32,
    pub offset: u32,
}

/// Depth comparison. `Greater` suits a depth buffer in which nearer is
/// larger.
#[derive(Debug, Clone, Copy, PartialEq, Eq, Structural)]
pub enum CompareOp {
    Greater,
}

/// One command of a frame's drawing.
#[derive(Debug, Clone, Copy, PartialEq, Eq, Structural)]
pub enum DrawCommand {
    /// Begin rendering into one layer of the color target, and of the depth
    /// target where there is one.
    BeginRendering { render_area: Extent2D, color: Attachment, depth: Option<Attachment> },
    /// One viewport at the origin; the depth range is given as bit patterns.
    SetViewport { width: u32, height: u32, min_depth: u32, max_depth: u32 },
    /// One scissor rectangle at the origin.
    SetScissor { extent: Extent2D },
    SetRasterizerDiscardEnable(bool),
    /// The vertex buffer's layout; `None` where the shader reads no vertex
    /// buffer.
    SetVertexInput(Option<VertexInput>),
    /// Triangle lists.
    SetPrimitiveTopologyTriangleList,
    SetPrimitiveRestartEnable(bool),
    SetRasterizationSamples { samples: u32 },
    SetSampleMask { samples: u32, mask: u32 },
    SetAlphaToCoverageEnable(bool),
    /// Filled polygons.
    SetPolygonModeFill,
    /// Line width, as a bit pattern.
    SetLineWidth(u32),
    /// Back faces are culled.
    SetCullModeBack,
    /// Clockwise triangles face front.
    SetFrontFaceClockwise,
    SetDepthTestEnable(bool),
    SetDepthBoundsTestEnable(bool),
    SetDepthBiasEnable(bool),
    SetStencilTestEnable(bool),
    SetDepthCompareOp(CompareOp),
    SetDepthWriteEnable(bool),
    /// Blending of the first color target.
    SetColorBlendEnable(bool),
    /// Raw `VkColorComponentFlags` written to the first color target.
    SetColorWriteMask(u32),
    /// Bind the context's vertex and fragment shader.
    BindShaders,
    /// Bind the mesh's vertex buffer at offset 0.
    BindVertexBuffer,
    /// Bind the mesh's index buffer at offset 0, with 32-bit indices.
    BindIndexBuffer,
    /// Bind the context's descriptor set as set 0.
    BindDescriptorSet,
    Draw { vertex_count: u32, instance_count: u32 },
    DrawIndexed { index_count: u32, instance_count: u32 },
    EndRendering,
}

/// The color target of every context: cleared to opaque black and kept.
pub open spec fn color_attachment() -> Attachment {
    Attachment {
        image_layout: ImageLayout::ColorAttachmentOptimal,
        store_op: StoreOp::Store,
        clear_value: clear_black(),
    }
}

/// The depth target of the mesh context: cleared, and not kept after the
/// frame.
pub open spec fn depth_attachment() -> Attachment {
    Attachment {
        image_layout: ImageLayout::DepthStencilAttachmentOptimal,
        store_op: StoreOp::DontCare,
        clear_value: clear_black(),
    }
}

/// Vertex layout of the mesh context.
pub open spec fn mesh_vertex_input() -> VertexInput {
    VertexInput { binding: 0, stride: VERTEX_SIZE as u32, location: 0, offset: 0 }
}

/// The state that both contexts declare alike, between the start of
/// rendering and their depth state.
pub open spec fn common_state(area: Extent2D, max_depth: u32, input: Option<VertexInput>) -> Seq<
    DrawCommand,
> {
    seq![
        DrawCommand::SetViewport { width: area.width, height: area.height, min_depth: 0, max_depth },
        DrawCommand::SetScissor { extent: area },
        DrawCommand::SetRasterizerDiscardEnable(false),
        DrawCommand::SetVertexInput(input),
        DrawCommand::SetPrimitiveTopologyTriangleList,
        DrawCommand::SetPrimitiveRestartEnable(false),
        DrawCommand::SetRasterizationSamples { samples: 1 },
        DrawCommand::SetSampleMask { samples: 1, mask: 1 },
        DrawCommand::SetAlphaToCoverageEnable(false),
        DrawCommand::SetPolygonModeFill,
        DrawCommand::SetLineWidth(ONE),
        DrawCommand::SetCullModeBack,
        DrawCommand::SetFrontFaceClockwise,
    ]
}

/// What the triangle context records for a frame.
pub open spec fn triangle_commands(area: Extent2D) -> Seq<DrawCommand> {
    seq![
        DrawCommand::BeginRendering { render_area: area, color: color_attachment(), depth: None },
    ] + common_state(area, 0, None) + seq![
        DrawCommand::SetDepthTestEnable(false),
        DrawCommand::SetDepthBoundsTestEnable(false),
        DrawCommand::SetDepthBiasEnable(false),
        DrawCommand::SetStencilTestEnable(false),
        DrawCommand::SetColorBlendEnable(false),
        DrawCommand::SetColorWriteMask(0xF),
        DrawCommand::BindShaders,
        DrawCommand::Draw { vertex_count: 3, instance_count: 1 },
        DrawCommand::EndRendering,
    ]
}

/// What the mesh context records for a frame that draws `index_count`
/// indices.
pub open spec fn mesh_commands(area: Extent2D, index_count: u32) -> Seq<DrawCommand> {
    seq![
        DrawCommand::BeginRendering {
            render_area: area,
            color: color_attachment(),
            depth: Some(depth_attachment()),
        },
    ] + common_state(area, ONE, Some(mesh_vertex_input())) + seq![
        DrawCommand::SetDepthTestEnable(true),
        DrawCommand::SetDepthBoundsTestEnable(false),
        DrawCommand::SetDepthBiasEnable(false),
        DrawCommand::SetStencilTestEnable(false),
        DrawCommand::SetDepthCompareOp(CompareOp::Greater),
        DrawCommand::SetDepthWriteEnable(true),
        DrawCommand::SetColorBlendEnable(false),
        DrawCommand::SetColorWriteMask(0xF),
        DrawCommand::BindShaders,
        DrawCommand::BindVertexBuffer,
        DrawCommand::BindIndexBuffer,
        DrawCommand::BindDescriptorSet,
        DrawCommand::DrawIndexed { index_count, instance_count: 1 },
        DrawCommand::EndRendering,
    ]
}

/// Whether a command binds shaders or resources or draws, and so depends
/// on the state declared before it.
pub open spec fn uses_state(command: DrawCommand) -> bool {
    match command {
        DrawCommand::BindShaders
        | DrawCommand::BindVertexBuffer
        | DrawCommand::BindIndexBuffer
        | DrawCommand::BindDescriptorSet
        | DrawCommand::Draw { .. }
        | DrawCommand::DrawIndexed { .. } => true,
        _ => false,
    }
}

/// Whether the commands before position `end` declare every piece of state
/// that a draw with shader objects needs: viewport and scissor, rasterizer
/// discard, vertex input, topology and primitive restart, sample count and
/// mask, alpha to coverage, polygon mode, line width, cull mode and front
/// face, the depth and stencil switches, and blending and write mask of the
/// color target.
pub open spec fn declares_state(commands: Seq<DrawCommand>, end: int) -> bool {
    &&& exists|i: int| 0 <= i < end && #[trigger] commands[i] is SetViewport
    &&& exists|i: int| 0 <= i < end && #[trigger] commands[i] is SetScissor
    &&& exists|i: int| 0 <= i < end && #[trigger] commands[i] is SetRasterizerDiscardEnable
    &&& exists|i: int| 0 <= i < end && #[trigger] commands[i] is SetVertexInput
    &&& exists|i: int| 0 <= i < end && #[trigger] commands[i] is SetPrimitiveTopologyTriangleList
    &&& exists|i: int| 0 <= i < end && #[trigger] commands[i] is SetPrimitiveRestartEnable
    &&& exists|i: int| 0 <= i < end && #[trigger] commands[i] is SetRasterizationSamples
    &&& exists|i: int| 0 <= i < end && #[trigger] commands[i] is SetSampleMask
    &&& exists|i: int| 0 <= i < end && #[trigger] commands[i] is SetAlphaToCoverageEnable
    &&& exists|i: int| 0 <= i < end && #[trigger] commands[i] is SetPolygonModeFill
    &&& exists|i: int| 0 <= i < end && #[trigger] commands[i] is SetLineWidth
    &&& exists|i: int| 0 <= i < end && #[trigger] commands[i] is SetCullModeBack
    &&& exists|i: int| 0 <= i < end && #[trigger] commands[i] is SetFrontFaceClockwise
    &&& exists|i: int| 0 <= i < end && #[trigger] commands[i] is SetDepthTestEnable
    &&& exists|i: int| 0 <= i < end && #[trigger] commands[i] is SetDepthBoundsTestEnable
    &&& exists|i: int| 0 <= i < end && #[trigger] commands[i] is SetDepthBiasEnable
    &&& exists|i: int| 0 <= i < end && #[trigger] commands[i] is SetStencilTestEnable
    &&& exists|i: int| 0 <= i < end && #[trigger] commands[i] is SetColorBlendEnable
    &&& exists|i: int| 0 <= i < end && #[trigger] commands[i] is SetColorWriteMask
}

/// Whether a frame's commands are in order: rendering begins first and ends
/// last, and nothing binds or draws before the whole state is declared.
pub open spec fn well_ordered(commands: Seq<DrawCommand>) -> bool {
    &&& commands.len() >= 2
    &&& commands[0] is BeginRendering
    &&& commands.last() is EndRendering
    &&& forall|j: int|
        0 <= j < commands.len() && uses_state(#[trigger] commands[j]) ==> declares_state(
            commands,
            j,
        )
}

/// The triangle context declares the whole state before it binds and
/// draws.
pub proof fn lemma_triangle_well_ordered(area: Extent2D)
    ensures
        well_ordered(triangle_commands(area)),
        triangle_commands(area).len() == 23,
{
    let c = triangle_commands(area);
    assert(c.len() == 23);
    assert(c[0] is BeginRendering);
    assert(c[1] is SetViewport);
    assert(c[2] is SetScissor);
    assert(c[3] is SetRasterizerDiscardEnable);
    assert(c[4] is SetVertexInput);
    assert(c[5] is SetPrimitiveTopologyTriangleList);
    assert(c[6] is SetPrimitiveRestartEnable);
    assert(c[7] is SetRasterizationSamples);
    assert(c[8] is SetSampleMask);
    assert(c[9] is SetAlphaToCoverageEnable);
    assert(c[10] is SetPolygonModeFill);
    assert(c[11] is SetLineWidth);
    assert(c[12] is SetCullModeBack);
    assert(c[13] is SetFrontFaceClockwise);
    assert(c[14] is SetDepthTestEnable);
    assert(c[15] is SetDepthBoundsTestEnable);
    assert(c[16] is SetDepthBiasEnable);
    assert(c[17] is SetStencilTestEnable);
    assert(c[18] is SetColorBlendEnable);
    assert(c[19] is SetColorWriteMask);
    assert(c[20] is BindShaders);
    assert(c[21] is Draw);
    assert(c[22] is EndRendering);
    assert(declares_state(c, 20));
    assert forall|j: int| 0 <= j < c.len() && uses_state(#[trigger] c[j]) implies declares_state(
        c,
        j,
    ) by {
        assert(j == 0 || j == 1 || j == 2 || j == 3 || j == 4 || j == 5 || j == 6 || j == 7 || j
            == 8 || j == 9 || j == 10 || j == 11 || j == 12 || j == 13 || j == 14 || j == 15 || j
            == 16 || j == 17 || j == 18 || j == 19 || j == 20 || j == 21 || j == 22);
        assert(j >= 20);
    }
}

/// The mesh context declares the whole state before it binds and draws.
pub proof fn lemma_mesh_well_ordered(area: Extent2D, index_count: u32)
    ensures
        well_ordered(mesh_commands(area, index_count)),
        mesh_commands(area, index_count).len() == 28,
{
    let c = mesh_commands(area, index_count);
    assert(c.len() == 28);
    assert(c[0] is BeginRendering);
    assert(c[1] is SetViewport);
    assert(c[2] is SetScissor);
    assert(c[3] is SetRasterizerDiscardEnable);
    assert(c[4] is SetVertexInput);
    assert(c[5] is SetPrimitiveTopologyTriangleList);
    assert(c[6] is SetPrimitiveRestartEnable);
    assert(c[7] is SetRasterizationSamples);
    assert(c[8] is SetSampleMask);
    assert(c[9] is SetAlphaToCoverageEnable);
    assert(c[10] is SetPolygonModeFill);
    assert(c[11] is SetLineWidth);
    assert(c[12] is SetCullModeBack);
    assert(c[13] is SetFrontFaceClockwise);
    assert(c[14] is SetDepthTestEnable);
    assert(c[15] is SetDepthBoundsTestEnable);
    assert(c[16] is SetDepthBiasEnable);
    assert(c[17] is SetStencilTestEnable);
    assert(c[18] is SetDepthCompareOp);
    assert(c[19] is SetDepthWriteEnable);
    assert(c[20] is SetColorBlendEnable);
    assert(c[21] is SetColorWriteMask);
    assert(c[22] is BindShaders);
    assert(c[23] is BindVertexBuffer);
    assert(c[24] is BindIndexBuffer);
    assert(c[25] is BindDescriptorSet);
    assert(c[26] is DrawIndexed);
    assert(c[27] is EndRendering);
    assert(declares_state(c, 22));
    assert forall|j: int| 0 <= j < c.len() && uses_state(#[trigger] c[j]) implies declares_state(
        c,
        j,
    ) by {
        assert(j == 0 || j == 1 || j == 2 || j == 3 || j == 4 || j == 5 || j == 6 || j == 7 || j
            == 8 || j == 9 || j == 10 || j == 11 || j == 12 || j == 13 || j == 14 || j == 15 || j
            == 16 || j == 17 || j == 18 || j == 19 || j == 20 || j == 21 || j == 22 || j == 23
            || j == 24 || j == 25 || j == 26 || j == 27);
        assert(j >= 22);
    }
}

/// One command of a context's one-time setup.
#[derive(Debug, Clone, Copy, PartialEq, Eq, Structural)]
pub enum SetupCommand {
    /// Copy `size` bytes from the vertex staging buffer to the vertex
    /// buffer.
    CopyVertexBuffer { size: u64 },
    /// Copy `size` bytes from the index staging buffer to the index buffer.
    CopyIndexBuffer { size: u64 },
    /// Write model, view and projection matrix into the first `size` bytes
    /// of the uniform buffer.
    WriteUniforms { size: u64 },
    /// Point binding 0 of the descriptor set at the first `range` bytes of
    /// the uniform buffer.
    UpdateDescriptorSet { range: u64 },
}

/// Pushes the state that both contexts declare alike.
fn push_common_state(
    commands: &mut Vec<DrawCommand>,
    area: Extent2D,
    max_depth: u32,
    input: Option<VertexInput>,
)
    ensures
        final(commands)@ == old(commands)@ + common_state(area, max_depth, input),
{
    commands.push(
        DrawCommand::SetViewport { width: area.width, height: area.height, min_depth: 0, max_depth },
    );
    commands.push(DrawCommand::SetScissor { extent: area });
    commands.push(DrawCommand::SetRasterizerDiscardEnable(false));
    commands.push(DrawCommand::SetVertexInput(input));
    commands.push(DrawCommand::SetPrimitiveTopologyTriangleList);
    commands.push(DrawCommand::SetPrimitiveRestartEnable(false));
    commands.push(DrawCommand::SetRasterizationSamples { samples: 1 });
    commands.push(DrawCommand::SetSampleMask { samples: 1, mask: 1 });
    commands.push(DrawCommand::SetAlphaToCoverageEnable(false));
    commands.push(DrawCommand::SetPolygonModeFill);
    commands.push(DrawCommand::SetLineWidth(ONE));
    commands.push(DrawCommand::SetCullModeBack);
    commands.push(DrawCommand::SetFrontFaceClockwise);
    assert(commands@ =~= old(commands)@ + common_state(area, max_depth, input));
}

/// What every drawing strategy offers to the frame loop.
pub trait RenderContext {
    /// The commands of the one-time setup.
    spec fn setup_commands(&self) -> Seq<SetupCommand>;

    /// The commands of one frame with the given render area.
    spec fn draw_commands(&self, area: Extent2D) -> Seq<DrawCommand>;

    /// Called when the swapchain was rebuilt with a new size. A context that
    /// owns nothing of the swapchain's size has nothing to do.
    fn on_swapchain_resized(&self, new_size: Extent2D) {
    }

    /// Lists the commands that run once, before the first draw, in a
    /// command buffer that is submitted and waited for.
    fn record_setup(&self) -> (commands: Vec<SetupCommand>)
        ensures
            commands@ == self.setup_commands(),
    ;

    /// Lists the commands that draw one frame into the color target, and
    /// the depth target, of the given size. The whole state is declared
    /// before anything is bound or drawn.
    fn record_draw(&self, area: Extent2D) -> (commands: Vec<DrawCommand>)
        ensures
            commands@ == self.draw_commands(area),
            well_ordered(commands@),
    ;
}

/// Draws one triangle whose vertices the vertex shader makes up: no
/// buffers, no descriptors, no depth test.
#[derive(Debug, Clone)]
pub struct TriangleRenderContext {
    pub triangle_vert: ShaderCreateInfo,
    pub triangle_frag: ShaderCreateInfo,
}

impl TriangleRenderContext {
    /// Derives the two shader objects of the triangle. Fails exactly when
    /// an entry point's name holds a NUL character.
    pub fn new(vert_shader: &Shader, frag_shader: &Shader) -> (context: Result<Self, ShaderError>)
        ensures
            context is Err <==> has_nul(vert_shader.entry_point@) || has_nul(
                frag_shader.entry_point@,
            ),
            context matches Ok(c) ==> describes(c.triangle_vert, *vert_shader) && describes(
                c.triangle_frag,
                *frag_shader,
            ),
    {
        let triangle_vert = match create_shader_object(vert_shader) {
            Ok(info) => info,
            Err(e) => {
                return Err(e);
            },
        };
        let triangle_frag = match create_shader_object(frag_shader) {
            Ok(info) => info,
            Err(e) => {
                return Err(e);
            },
        };
        Ok(TriangleRenderContext { triangle_vert, triangle_frag })
    }
}

impl RenderContext for TriangleRenderContext {
    open spec fn setup_commands(&self) -> Seq<SetupCommand> {
        Seq::empty()
    }

    open spec fn draw_commands(&self, area: Extent2D) -> Seq<DrawCommand> {
        triangle_commands(area)
    }

    fn record_setup(&self) -> (commands: Vec<SetupCommand>) {
        Vec::new()
    }

    fn record_draw(&self, area: Extent2D) -> (commands: Vec<DrawCommand>) {
        let mut commands: Vec<DrawCommand> = Vec::new();
        commands.push(
            DrawCommand::BeginRendering {
                render_area: area,
                color: Attachment {
                    image_layout: ImageLayout::ColorAttachmentOptimal,
                    store_op: StoreOp::Store,
                    clear_value: ClearValue { r: 0, g: 0, b: 0, a: ONE },
                },
                depth: None,
            },
        );
        push_common_state(&mut commands, area, 0, None);
        commands.push(DrawCommand::SetDepthTestEnable(false));
        commands.push(DrawCommand::SetDepthBoundsTestEnable(false));
        commands.push(DrawCommand::SetDepthBiasEnable(false));
        commands.push(DrawCommand::SetStencilTestEnable(false));
        commands.push(DrawCommand::SetColorBlendEnable(false));
        commands.push(DrawCommand::SetColorWriteMask(0xF));
        commands.push(DrawCommand::BindShaders);
        commands.push(DrawCommand::Draw { vertex_count: 3, instance_count: 1 });
        commands.push(DrawCommand::EndRendering);
        proof {
            assert(commands@ =~= triangle_commands(area));
            lemma_triangle_well_ordered(area);
        }
        commands
    }
}

/// Draws an indexed mesh with a model, view and projection matrix from a
/// uniform buffer, depth tested with "greater" and depth written.
#[derive(Debug, Clone)]
pub struct MeshSimpleRenderContext {
    pub vertex_shader: ShaderCreateInfo,
    pub fragment_shader: ShaderCreateInfo,
    pub mesh: VulkanMesh,
    /// Layouts of the descriptor sets that the two shaders use together.
    pub descriptor_set_layouts: Vec<DescriptorSetLayout>,
    pub uniform_buffer: BufferCreateInfo,
}

/// Why a mesh context cannot be made.
#[derive(Debug, Clone, Copy, PartialEq, Eq, Structural)]
pub enum RenderContextError {
    Shader(ShaderError),
    Mesh(MeshError),
}

/// The uniform buffer of a mesh context: one uniform block that the host
/// writes.
pub open spec fn uniform_buffer_info() -> BufferCreateInfo {
    BufferCreateInfo {
        size: UNIFORM_BLOCK_SIZE,
        usage: usage_uniform_buffer(),
        memory_properties: memory_host_visible() | memory_host_coherent(),
    }
}

impl MeshSimpleRenderContext {
    /// Derives shader objects, descriptor set layouts and buffers for a
    /// mesh. The layouts group the bindings of the vertex shader followed by
    /// those of the fragment shader. Fails with the shader error when an
    /// entry point's name holds a NUL character, else with the mesh error
    /// when the mesh does not fit.
    pub fn new(vert_shader: &Shader, frag_shader: &Shader, model: &Model) -> (context: Result<
        Self,
        RenderContextError,
    >)
        ensures
            has_nul(vert_shader.entry_point@) || has_nul(frag_shader.entry_point@) ==> context
                == Err::<Self, RenderContextError>(
                RenderContextError::Shader(ShaderError::InvalidEntryPoint),
            ),
            !has_nul(vert_shader.entry_point@) && !has_nul(frag_shader.entry_point@)
                && !uploadable(model@) ==> context == Err::<Self, RenderContextError>(
                RenderContextError::Mesh(MeshError::TooLarge),
            ),
            !has_nul(vert_shader.entry_point@) && !has_nul(frag_shader.entry_point@)
                && uploadable(model@) ==> context is Ok && context->Ok_0.mesh == mesh_buffers(
                model@,
            ) && context->Ok_0.uniform_buffer == uniform_buffer_info() && is_grouping(
                vert_shader.descriptor_set_layout_bindings@
                    + frag_shader.descriptor_set_layout_bindings@,
                context->Ok_0.descriptor_set_layouts@,
            ) && describes(context->Ok_0.vertex_shader, *vert_shader) && describes(
                context->Ok_0.fragment_shader,
                *frag_shader,
            ),
    {
        let vertex_shader = match create_shader_object(vert_shader) {
            Ok(info) => info,
            Err(e) => {
                return Err(RenderContextError::Shader(e));
            },
        };
        let fragment_shader = match create_shader_object(frag_shader) {
            Ok(info) => info,
            Err(e) => {
                return Err(RenderContextError::Shader(e));
            },
        };
        let mesh = match VulkanMesh::from_model(model) {
            Ok(mesh) => mesh,
            Err(e) => {
                return Err(RenderContextError::Mesh(e));
            },
        };
        let mut bindings: Vec<VkDescriptorSetLayoutBinding> = Vec::new();
        let mut i: usize = 0;
        while i < vert_shader.descriptor_set_layout_bindings.len()
            invariant
                i <= vert_shader.descriptor_set_layout_bindings@.len(),
                bindings@ == vert_shader.descriptor_set_layout_bindings@.take(i as int),
            decreases vert_shader.descriptor_set_layout_bindings@.len() - i,
        {
            bindings.push(vert_shader.descriptor_set_layout_bindings[i]);
            i += 1;
            assert(bindings@ =~= vert_shader.descriptor_set_layout_bindings@.take(i as int));
        }
        let mut j: usize = 0;
        while j < frag_shader.descriptor_set_layout_bindings.len()
            invariant
                j <= frag_shader.descriptor_set_layout_bindings@.len(),
                bindings@ == vert_shader.descriptor_set_layout_bindings@
                    + frag_shader.descriptor_set_layout_bindings@.take(j as int),
            decreases frag_shader.descriptor_set_layout_bindings@.len() - j,
        {
            bindings.push(frag_shader.descriptor_set_layout_bindings[j]);
            j += 1;
            assert(bindings@ =~= vert_shader.descriptor_set_layout_bindings@
                + frag_shader.descriptor_set_layout_bindings@.take(j as int));
        }
        assert(bindings@ =~= vert_shader.descriptor_set_layout_bindings@
            + frag_shader.descriptor_set_layout_bindings@);
        let descriptor_set_layouts = group_bindings(bindings.as_slice());
        let usage = buffer_usage_bits();
        let memory = memory_property_bits();
        let uniform_buffer = buffer_create_info(
            UNIFORM_BLOCK_SIZE,
            usage.uniform_buffer,
            memory.host_visible | memory.host_coherent,
        );
        Ok(
            MeshSimpleRenderContext {
                vertex_shader,
                fragment_shader,
                mesh,
                descriptor_set_layouts,
                uniform_buffer,
            },
        )
    }
}

impl RenderContext for MeshSimpleRenderContext {
    open spec fn setup_commands(&self) -> Seq<SetupCommand> {
        seq![
            SetupCommand::CopyVertexBuffer { size: self.mesh.vertex_buffer_size },
            SetupCommand::CopyIndexBuffer { size: self.mesh.index_buffer_size },
            SetupCommand::WriteUniforms { size: UNIFORM_BLOCK_SIZE },
            SetupCommand::UpdateDescriptorSet { range: UNIFORM_BLOCK_SIZE },
        ]
    }

    open spec fn draw_commands(&self, area: Extent2D) -> Seq<DrawCommand> {
        mesh_commands(area, self.mesh.index_count)
    }

    fn record_setup(&self) -> (commands: Vec<SetupCommand>) {
        let mut commands: Vec<SetupCommand> = Vec::new();
        commands.push(SetupCommand::CopyVertexBuffer { size: self.mesh.vertex_buffer_size });
        commands.push(SetupCommand::CopyIndexBuffer { size: self.mesh.index_buffer_size });
        commands.push(SetupCommand::WriteUniforms { size: UNIFORM_BLOCK_SIZE });
        commands.push(SetupCommand::UpdateDescriptorSet { range: UNIFORM_BLOCK_SIZE });
        assert(commands@ =~= self.setup_commands());
        commands
    }

    fn record_draw(&self, area: Extent2D) -> (commands: Vec<DrawCommand>) {
        let clear_value = ClearValue { r: 0, g: 0, b: 0, a: ONE };
        let mut commands: Vec<DrawCommand> = Vec::new();
        commands.push(
            DrawCommand::BeginRendering {
                render_area: area,
                color: Attachment {
                    image_layout: ImageLayout::ColorAttachmentOptimal,
                    store_op: StoreOp::Store,
                    clear_value,
                },
                depth: Some(
                    Attachment {
                        image_layout: ImageLayout::DepthStencilAttachmentOptimal,
                        store_op: StoreOp::DontCare,
                        clear_value,
                    },
                ),
            },
        );
        let input = VertexInput { binding: 0, stride: VERTEX_SIZE as u32, location: 0, offset: 0 };
        push_common_state(&mut commands, area, ONE, Some(input));
        commands.push(DrawCommand::SetDepthTestEnable(true));
        commands.push(DrawCommand::SetDepthBoundsTestEnable(false));
        commands.push(DrawCommand::SetDepthBiasEnable(false));
        commands.push(DrawCommand::SetStencilTestEnable(false));
        commands.push(DrawCommand::SetDepthCompareOp(CompareOp::Greater));
        commands.push(DrawCommand::SetDepthWriteEnable(true));
        commands.push(DrawCommand::SetColorBlendEnable(false));
        commands.push(DrawCommand::SetColorWriteMask(0xF));
        commands.push(DrawCommand::BindShaders);
        commands.push(DrawCommand::BindVertexBuffer);
        commands.push(DrawCommand::BindIndexBuffer);
        commands.push(DrawCommand::BindDescriptorSet);
        commands.push(
            DrawCommand::DrawIndexed { index_count: self.mesh.index_count, instance_count: 1 },
        );
        commands.push(DrawCommand::EndRendering);
        proof {
            assert(commands@ =~= mesh_commands(area, self.mesh.index_count));
            lemma_mesh_well_ordered(area, self.mesh.index_count);
        }
        commands
    }
}

} // verus!
