use varre_engine::command_buffers::{depth_attachment_transition, CommandStep, ImageLayout};
use varre_engine::engine::{
    draw_command_buffer, ActiveRenderContext, ContextState, EngineError, TeardownStep,
    VulkanEngine, COMMAND_BUFFER_COUNT, ONE_TIME_COMMAND_BUFFER,
};
use varre_engine::model::{Model, Vertex};
use varre_engine::physical_device::QueueFamilyIndices;
use varre_engine::render_context::{
    Attachment, ClearValue, CompareOp, DrawCommand, MeshSimpleRenderContext, RenderContext,
    RenderContextError, RenderContextType, SetupCommand, StoreOp, TriangleRenderContext,
    VertexInput, DESCRIPTOR_POOL_SIZE, ONE, UNIFORM_BLOCK_SIZE,
};
use varre_engine::shader_utils::{
    Shader, ShaderError, ShaderID, ShaderStage, VkDescriptorSetLayoutBinding,
};
use varre_engine::swapchain::{Extent2D, SurfaceCapabilities};
use varre_engine::vulkan_window::{
    FrameAction, FrameError, FrameEvent, FramePhase, VulkanWindow, WindowStep,
};

static UNIFORMS: [VkDescriptorSetLayoutBinding; 1] = [VkDescriptorSetLayoutBinding {
    set: 0,
    binding: 0,
    descriptor_type: 6,
    descriptor_count: 1,
    stage_flags: 1,
}];

fn vertex_shader(id: ShaderID) -> Shader {
    Shader {
        id,
        spv: &[1, 2, 3, 4],
        stage: ShaderStage::Vertex,
        entry_point: "main",
        descriptor_set_layout_bindings: &UNIFORMS,
    }
}

fn fragment_shader(id: ShaderID) -> Shader {
    Shader {
        id,
        spv: &[5, 6, 7, 8],
        stage: ShaderStage::Fragment,
        entry_point: "main",
        descriptor_set_layout_bindings: &[],
    }
}

fn triangle() -> ActiveRenderContext {
    ActiveRenderContext::Triangle(
        TriangleRenderContext::new(
            &vertex_shader(ShaderID::TriangleVertex),
            &fragment_shader(ShaderID::TriangleFragment),
        )
        .unwrap(),
    )
}

fn cube() -> Model {
    Model {
        verts: (0..8u32).map(|i| Vertex { x: i & 1, y: (i >> 1) & 1, z: i >> 2 }).collect(),
        indices: (0..36u32).map(|i| i % 8).collect(),
        uvs: Vec::new(),
    }
}

fn mesh() -> MeshSimpleRenderContext {
    MeshSimpleRenderContext::new(
        &vertex_shader(ShaderID::BasicModelVertex),
        &fragment_shader(ShaderID::BasicModelFragment),
        &cube(),
    )
    .unwrap()
}

fn capabilities() -> SurfaceCapabilities {
    SurfaceCapabilities {
        min_image_count: 2,
        max_image_count: 3,
        current_extent: Extent2D { width: u32::MAX, height: u32::MAX },
        supported_transforms: 1,
        current_transform: 1,
    }
}

fn engine(headless: bool) -> VulkanEngine {
    let indices =
        QueueFamilyIndices { graphics_general: Some(0), async_compute: None, transfer: None };
    VulkanEngine::new(false, headless, indices).unwrap()
}

fn ready_engine() -> VulkanEngine {
    let mut engine = engine(false);
    engine.add_window(&capabilities(), &vec![2], 44, 1920, 1080).unwrap();
    engine.swapchain_created(2).unwrap();
    engine.set_render_context(triangle()).unwrap();
    engine.record_setup().unwrap();
    engine.setup_complete().unwrap();
    engine
}

fn common_state(area: Extent2D, max_depth: u32, input: Option<VertexInput>) -> Vec<DrawCommand> {
    vec![
        DrawCommand::SetViewport { width: area.width, height: area.height, min_depth: 0, max_depth },
        DrawCommand::SetScissor { extent: area },
        DrawCommand::SetRasterizerDiscardEnable(false),
        DrawCommand::SetVertexInput(input),
        DrawCommand::SetPrimitiveTopologyTriangleList,
        DrawCommand::SetPrimitiveRestartEnable(false),
        DrawCommand::SetRasterizationSamples { samples: 1 },
        DrawCommand::SetSampleMask { samples: 1, mask: 1 },
        DrawCommand::SetAlphaToCoverageEnable(false),
        DrawCommand::SetPolygonModeFill,
        DrawCommand::SetLineWidth(1.0f32.to_bits()),
        DrawCommand::SetCullModeBack,
        DrawCommand::SetFrontFaceClockwise,
    ]
}

fn black() -> ClearValue {
    ClearValue { r: 0, g: 0, b: 0, a: 1.0f32.to_bits() }
}

fn is_state(command: &DrawCommand) -> bool {
    !matches!(
        command,
        DrawCommand::BeginRendering { .. }
            | DrawCommand::BindShaders
            | DrawCommand::BindVertexBuffer
            | DrawCommand::BindIndexBuffer
            | DrawCommand::BindDescriptorSet
            | DrawCommand::Draw { .. }
            | DrawCommand::DrawIndexed { .. }
            | DrawCommand::EndRendering
    )
}

#[test]
fn one_is_the_bit_pattern_of_one() {
    assert_eq!(ONE, 1.0f32.to_bits());
    assert_eq!(UNIFORM_BLOCK_SIZE, 3 * 16 * 4);
    assert_eq!(DESCRIPTOR_POOL_SIZE, 32);
}

#[test]
fn triangle_draws_three_vertices_without_depth() {
    let area = Extent2D { width: 800, height: 600 };
    let context = TriangleRenderContext::new(
        &vertex_shader(ShaderID::TriangleVertex),
        &fragment_shader(ShaderID::TriangleFragment),
    )
    .unwrap();
    let mut expected = vec![DrawCommand::BeginRendering {
        render_area: area,
        color: Attachment {
            image_layout: ImageLayout::ColorAttachmentOptimal,
            store_op: StoreOp::Store,
            clear_value: black(),
        },
        depth: None,
    }];
    expected.extend(common_state(area, 0, None));
    expected.extend(vec![
        DrawCommand::SetDepthTestEnable(false),
        DrawCommand::SetDepthBoundsTestEnable(false),
        DrawCommand::SetDepthBiasEnable(false),
        DrawCommand::SetStencilTestEnable(false),
        DrawCommand::SetColorBlendEnable(false),
        DrawCommand::SetColorWriteMask(0xF),
        DrawCommand::BindShaders,
        DrawCommand::Draw { vertex_count: 3, instance_count: 1 },
        DrawCommand::EndRendering,
    ]);
    assert_eq!(context.record_draw(area), expected);
    assert!(context.record_setup().is_empty());
    context.on_swapchain_resized(area);
}

#[test]
fn mesh_draws_indexed_with_reversed_depth() {
    let area = Extent2D { width: 1920, height: 1080 };
    let context = mesh();
    let clear = black();
    let mut expected = vec![DrawCommand::BeginRendering {
        render_area: area,
        color: Attachment {
            image_layout: ImageLayout::ColorAttachmentOptimal,
            store_op: StoreOp::Store,
            clear_value: clear,
        },
        depth: Some(Attachment {
            image_layout: ImageLayout::DepthStencilAttachmentOptimal,
            store_op: StoreOp::DontCare,
            clear_value: clear,
        }),
    }];
    let input = VertexInput { binding: 0, stride: 12, location: 0, offset: 0 };
    expected.extend(common_state(area, 1.0f32.to_bits(), Some(input)));
    expected.extend(vec![
        DrawCommand::SetDepthTestEnable(true),
        DrawCommand::SetDepthBoundsTestEnable(false),
        DrawCommand::SetDepthBiasEnable(false),
        DrawCommand::SetStencilTestEnable(false),
        DrawCommand::SetDepthCompareOp(CompareOp::Greater),
        DrawCommand::SetDepthWriteEnable(true),
        DrawCommand::SetColorBlendEnable(false),
        DrawCommand::SetColorWriteMask(0xF),
        DrawCommand::BindShaders,
        DrawCommand::BindVertexBuffer,
        DrawCommand::BindIndexBuffer,
        DrawCommand::BindDescriptorSet,
        DrawCommand::DrawIndexed { index_count: 36, instance_count: 1 },
        DrawCommand::EndRendering,
    ]);
    assert_eq!(context.record_draw(area), expected);
}

#[test]
fn state_is_declared_before_binding_and_drawing() {
    let area = Extent2D { width: 4, height: 4 };
    for commands in [mesh().record_draw(area), triangle().record_draw(area)] {
        assert!(matches!(commands[0], DrawCommand::BeginRendering { .. }));
        assert_eq!(*commands.last().unwrap(), DrawCommand::EndRendering);
        let first_use = commands.iter().position(|c| *c == DrawCommand::BindShaders).unwrap();
        assert!(commands[1..first_use].iter().all(is_state));
        assert!(commands[first_use..].iter().all(|c| !is_state(c)));
        assert!(first_use >= 20);
    }
}

#[test]
fn mesh_setup_copies_staging_buffers_and_writes_uniforms() {
    let context = mesh();
    assert_eq!(
        context.record_setup(),
        vec![
            SetupCommand::CopyVertexBuffer { size: 96 },
            SetupCommand::CopyIndexBuffer { size: 144 },
            SetupCommand::WriteUniforms { size: 192 },
            SetupCommand::UpdateDescriptorSet { range: 192 },
        ]
    );
    assert_eq!(context.uniform_buffer.size, 192);
    assert_eq!(context.uniform_buffer.usage, 0x10);
    assert_eq!(context.uniform_buffer.memory_properties, 0x6);
    assert_eq!(context.mesh.index_count, 36);
}

#[test]
fn mesh_layouts_group_the_bindings_of_both_shaders() {
    static FRAGMENT_BINDINGS: [VkDescriptorSetLayoutBinding; 2] = [
        VkDescriptorSetLayoutBinding {
            set: 1,
            binding: 0,
            descriptor_type: 1,
            descriptor_count: 1,
            stage_flags: 16,
        },
        VkDescriptorSetLayoutBinding {
            set: 0,
            binding: 1,
            descriptor_type: 6,
            descriptor_count: 1,
            stage_flags: 16,
        },
    ];
    let fragment = Shader {
        descriptor_set_layout_bindings: &FRAGMENT_BINDINGS,
        ..fragment_shader(ShaderID::BasicModelFragment)
    };
    let context =
        MeshSimpleRenderContext::new(&vertex_shader(ShaderID::BasicModelVertex), &fragment, &cube())
            .unwrap();
    let layouts = &context.descriptor_set_layouts;
    assert_eq!(layouts.len(), 2);
    assert_eq!(layouts[0].set, 0);
    assert_eq!(layouts[0].bindings.iter().map(|b| b.binding).collect::<Vec<u32>>(), vec![0, 1]);
    assert_eq!(layouts[1].set, 1);
    assert_eq!(layouts[1].bindings.len(), 1);
    assert_eq!(context.vertex_shader.set_layouts.len(), 1);
    assert_eq!(context.fragment_shader.set_layouts.len(), 2);
    assert_eq!(context.vertex_shader.next_stage, 0x1A);
    assert_eq!(context.fragment_shader.next_stage, 0);
}

#[test]
fn context_with_bad_entry_point_is_refused() {
    let bad = Shader { entry_point: "a\0", ..fragment_shader(ShaderID::TriangleFragment) };
    let refused = TriangleRenderContext::new(&vertex_shader(ShaderID::TriangleVertex), &bad);
    assert!(matches!(refused, Err(ShaderError::InvalidEntryPoint)));
    let refused_mesh =
        MeshSimpleRenderContext::new(&vertex_shader(ShaderID::BasicModelVertex), &bad, &cube());
    assert!(matches!(
        refused_mesh,
        Err(RenderContextError::Shader(ShaderError::InvalidEntryPoint))
    ));
}

#[test]
fn context_kinds() {
    assert_eq!(triangle().kind(), RenderContextType::Triangle);
    assert_eq!(ActiveRenderContext::MeshSimple(mesh()).kind(), RenderContextType::MeshSimple);
}

#[test]
fn command_buffers_are_one_for_setup_and_one_per_slot() {
    assert_eq!(COMMAND_BUFFER_COUNT, 4);
    assert_eq!(ONE_TIME_COMMAND_BUFFER, 0);
    assert_eq!(draw_command_buffer(0), 1);
    assert_eq!(draw_command_buffer(1), 2);
    assert_eq!(draw_command_buffer(2), 3);
}

#[test]
fn drawing_before_attach_is_refused() {
    let mut engine = engine(false);
    let (action, commands) = engine.draw(FrameEvent::Begin);
    assert_eq!(action, FrameAction::Abort(FrameError::NotAttached));
    assert!(commands.is_empty());
}

#[test]
fn resizing_before_attach_is_refused() {
    let mut engine = engine(false);
    assert_eq!(engine.on_resize(&capabilities(), &vec![2], 10, 10), Err(FrameError::NotAttached));
    assert_eq!(engine.swapchain_created(2), Err(FrameError::NotAttached));
}

#[test]
fn drawing_without_render_context_is_refused() {
    let mut engine = engine(false);
    engine.add_window(&capabilities(), &vec![2], 44, 640, 480).unwrap();
    engine.swapchain_created(2).unwrap();
    let (action, _) = engine.draw(FrameEvent::Begin);
    assert_eq!(action, FrameAction::Abort(FrameError::NoRenderContext));
    engine.set_render_context(triangle()).unwrap();
    let (action, _) = engine.draw(FrameEvent::Begin);
    assert_eq!(action, FrameAction::Abort(FrameError::NoRenderContext));
    engine.record_setup().unwrap();
    let (action, _) = engine.draw(FrameEvent::Begin);
    assert_eq!(action, FrameAction::Abort(FrameError::NoRenderContext));
    engine.setup_complete().unwrap();
    let (action, _) = engine.draw(FrameEvent::Begin);
    assert_eq!(action, FrameAction::WaitAndResetFence { fence: 0 });
}

#[test]
fn headless_engine_takes_no_window() {
    let mut engine = engine(true);
    let refused = engine.add_window(&capabilities(), &vec![2], 44, 640, 480);
    assert!(matches!(refused, Err(EngineError::Headless)));
    assert_eq!(engine.window_state(), None);
}

#[test]
fn second_window_is_refused() {
    let mut engine = engine(false);
    engine.add_window(&capabilities(), &vec![2], 44, 640, 480).unwrap();
    let before = engine.window_state();
    let refused = engine.add_window(&capabilities(), &vec![2], 44, 1, 1);
    assert!(matches!(refused, Err(EngineError::AlreadyAttached)));
    assert_eq!(engine.window_state(), before);
}

#[test]
fn setup_runs_once_per_activation() {
    let mut engine = engine(false);
    assert!(matches!(engine.record_setup(), Err(EngineError::NoRenderContext)));
    assert!(matches!(engine.setup_complete(), Err(EngineError::NoRenderContext)));
    engine.add_window(&capabilities(), &vec![2], 44, 640, 480).unwrap();
    engine.swapchain_created(3).unwrap();
    engine.set_render_context(ActiveRenderContext::MeshSimple(mesh())).unwrap();
    assert_eq!(engine.context_state(), Some(ContextState::Uninitialized));
    assert!(matches!(engine.setup_complete(), Err(EngineError::OutOfOrder)));
    let setup = engine.record_setup().unwrap();
    assert_eq!(setup.steps.len(), 7);
    assert_eq!(setup.steps[5], CommandStep::Submit);
    assert_eq!(setup.depth_barrier, Some(depth_attachment_transition()));
    assert_eq!(setup.commands.len(), 4);
    assert_eq!(engine.context_state(), Some(ContextState::SetUp));
    assert!(matches!(engine.record_setup(), Err(EngineError::OutOfOrder)));
    engine.setup_complete().unwrap();
    assert_eq!(engine.context_state(), Some(ContextState::Ready));
    assert!(matches!(engine.record_setup(), Err(EngineError::OutOfOrder)));
    assert!(matches!(engine.setup_complete(), Err(EngineError::OutOfOrder)));
    engine.set_render_context(triangle()).unwrap();
    assert_eq!(engine.context_state(), Some(ContextState::Uninitialized));
    let again = engine.record_setup().unwrap();
    assert_eq!(again.depth_barrier, None);
    assert!(again.commands.is_empty());
}

#[test]
fn frame_records_the_commands_of_the_context() {
    let mut engine = ready_engine();
    assert_eq!(engine.draw(FrameEvent::Begin).0, FrameAction::WaitAndResetFence { fence: 0 });
    assert_eq!(engine.draw(FrameEvent::FenceReady).0, FrameAction::Acquire { present_complete: 0 });
    let (action, commands) = engine.draw(FrameEvent::Acquired { image_index: 1, suboptimal: false });
    let recording = match action {
        FrameAction::Record(recording) => recording,
        other => panic!("expected a recording, got {:?}", other),
    };
    let area = Extent2D { width: 1920, height: 1080 };
    assert_eq!(recording.render_area, area);
    assert_eq!(recording.depth_to_attachment, None);
    assert_eq!(commands, triangle().record_draw(area));
    let (submit, none) = engine.draw(FrameEvent::Recorded);
    assert!(none.is_empty());
    match submit {
        FrameAction::Submit(submission) => assert_eq!(submission.signal_semaphore, 1),
        other => panic!("expected a submission, got {:?}", other),
    }
    assert!(matches!(engine.draw(FrameEvent::Submitted).0, FrameAction::Present(_)));
    assert_eq!(
        engine.draw(FrameEvent::Presented { suboptimal: false }).0,
        FrameAction::Finished { suboptimal: false }
    );
    assert_eq!(engine.window_state().unwrap().frame_index, 1);
}

#[test]
fn context_cannot_change_in_the_middle_of_a_frame() {
    let mut engine = ready_engine();
    engine.draw(FrameEvent::Begin);
    assert!(matches!(engine.set_render_context(triangle()), Err(EngineError::OutOfOrder)));
    assert_eq!(engine.context_state(), Some(ContextState::Ready));
}

#[test]
fn engine_resize_rebuilds_the_window() {
    let mut engine = ready_engine();
    let steps = engine.on_resize(&capabilities(), &vec![2], 800, 600).unwrap();
    assert_eq!(steps.len(), 9);
    assert_eq!(engine.window_state().unwrap().phase, FramePhase::Rebuilding);
    assert_eq!(engine.draw(FrameEvent::Begin).0, FrameAction::Abort(FrameError::OutOfOrder));
    engine.swapchain_created(3).unwrap();
    let state = engine.window_state().unwrap();
    assert_eq!(state.extent, Extent2D { width: 800, height: 600 });
    assert_eq!(state.image_count, 3);
    assert_eq!(engine.swapchain_created(3), Err(FrameError::OutOfOrder));
    engine.draw(FrameEvent::Begin);
    assert_eq!(engine.on_resize(&capabilities(), &vec![2], 1, 1), Err(FrameError::OutOfOrder));
}

#[test]
fn shutdown_destroys_in_reverse_order() {
    let indices =
        QueueFamilyIndices { graphics_general: Some(2), async_compute: None, transfer: None };
    let mut validated = VulkanEngine::new(true, false, indices).unwrap();
    validated.add_window(&capabilities(), &vec![2], 44, 640, 480).unwrap();
    validated.swapchain_created(3).unwrap();
    validated.set_render_context(triangle()).unwrap();
    assert_eq!(
        validated.shutdown(),
        vec![
            TeardownStep::WaitDeviceIdle,
            TeardownStep::DestroyRenderContext,
            TeardownStep::Window(WindowStep::DestroyImageViews { count: 3 }),
            TeardownStep::Window(WindowStep::DestroyRenderingCompleteSemaphores { count: 3 }),
            TeardownStep::Window(WindowStep::DestroyFrameSync { slots: 3 }),
            TeardownStep::Window(WindowStep::DestroyDepthResources),
            TeardownStep::Window(WindowStep::DestroySwapchain),
            TeardownStep::Window(WindowStep::DestroySurface),
            TeardownStep::DestroyCommandPool,
            TeardownStep::DestroyDevice,
            TeardownStep::DestroyDebugMessenger,
            TeardownStep::DestroyInstance,
        ]
    );
    assert_eq!(validated.window_state(), None);
    assert_eq!(validated.context_state(), None);
    let mut plain = engine(true);
    assert_eq!(
        plain.shutdown(),
        vec![
            TeardownStep::WaitDeviceIdle,
            TeardownStep::DestroyCommandPool,
            TeardownStep::DestroyDevice,
            TeardownStep::DestroyInstance,
        ]
    );
}

#[test]
fn window_teardown_ends_with_the_surface() {
    let (mut window, _) = VulkanWindow::new(
        &capabilities(),
        &vec![2],
        44,
        Extent2D { width: 640, height: 480 },
    );
    window.swapchain_created(2).unwrap();
    assert_eq!(
        window.teardown(),
        vec![
            WindowStep::DestroyImageViews { count: 2 },
            WindowStep::DestroyRenderingCompleteSemaphores { count: 2 },
            WindowStep::DestroyFrameSync { slots: 3 },
            WindowStep::DestroyDepthResources,
            WindowStep::DestroySwapchain,
            WindowStep::DestroySurface,
        ]
    );
}
