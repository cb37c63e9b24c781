//! The engine: composition root of device, window and render context.
//!
//! The engine owns no device object itself. It keeps what must be known to
//! decide the next step, refuses what comes out of order, and hands the
//! frame loop of its window the commands of its render context.

use vstd::prelude::*;
use crate::command_buffers::{
    depth_attachment_barrier, one_time_steps, recording_steps, CommandStep, ImageBarrier,
    ImageLayout,
};
use crate::physical_device::QueueFamilyIndices;
use crate::render_context::{
    DrawCommand, MeshSimpleRenderContext, RenderContext, RenderContextType, SetupCommand,
    TriangleRenderContext,
};
use crate::swapchain::{chosen_swapchain, Extent2D, SurfaceCapabilities};
use crate::vulkan_window::{
    attach_steps, building, can_resize, frame_step, in_frame, rebuilding, rebuilt, resize_steps,
    teardown_steps as window_teardown_steps, FrameAction, FrameError, FrameEvent, FramePhase,
    VulkanWindow, WindowState, WindowStep,
};
use crate::NUM_FRAMES_IN_FLIGHT;

verus! {

/// Number of command buffers the engine allocates from its pool: one for
/// one-time work and one per frame slot.
pub const COMMAND_BUFFER_COUNT: u32 = 4;

/// Position of the one-time command buffer among those allocated.
pub const ONE_TIME_COMMAND_BUFFER: usize = 0;

/// Position, among the command buffers allocated, of the one that frame
/// slot `slot` draws with.
pub open spec fn draw_buffer_of(slot: usize) -> usize {
    (slot + 1) as usize
}

/// Position of the draw command buffer of a frame slot.
pub fn draw_command_buffer(slot: usize) -> (position: usize)
    requires
        slot < NUM_FRAMES_IN_FLIGHT,
    ensures
        position == draw_buffer_of(slot),
        ONE_TIME_COMMAND_BUFFER < position < COMMAND_BUFFER_COUNT,
{
    slot + 1
}

/// The active drawing strategy.
#[derive(Debug, Clone)]
pub enum ActiveRenderContext {
    Triangle(TriangleRenderContext),
    MeshSimple(MeshSimpleRenderContext),
}

impl ActiveRenderContext {
    /// Which strategy this is.
    pub open spec fn spec_kind(&self) -> RenderContextType {
        match self {
            ActiveRenderContext::Triangle(_) => RenderContextType::Triangle,
            ActiveRenderContext::MeshSimple(_) => RenderContextType::MeshSimple,
        }
    }

    /// Which strategy this is.
    pub fn kind(&self) -> (kind: RenderContextType)
        ensures
            kind == self.spec_kind(),
    {
        match self {
            ActiveRenderContext::Triangle(_) => RenderContextType::Triangle,
            ActiveRenderContext::MeshSimple(_) => RenderContextType::MeshSimple,
        }
    }
}

impl RenderContext for ActiveRenderContext {
    open spec fn setup_commands(&self) -> Seq<SetupCommand> {
        match self {
            ActiveRenderContext::Triangle(c) => c.setup_commands(),
            ActiveRenderContext::MeshSimple(c) => c.setup_commands(),
        }
    }

    open spec fn draw_commands(&self, area: Extent2D) -> Seq<DrawCommand> {
        match self {
            ActiveRenderContext::Triangle(c) => c.draw_commands(area),
            ActiveRenderContext::MeshSimple(c) => c.draw_commands(area),
        }
    }

    fn record_setup(&self) -> (commands: Vec<SetupCommand>) {
        match self {
            ActiveRenderContext::Triangle(c) => c.record_setup(),
            ActiveRenderContext::MeshSimple(c) => c.record_setup(),
        }
    }

    fn record_draw(&self, area: Extent2D) -> (commands: Vec<DrawCommand>) {
        match self {
            ActiveRenderContext::Triangle(c) => c.record_draw(area),
            ActiveRenderContext::MeshSimple(c) => c.record_draw(area),
        }
    }
}

/// How far the active render context has come.
#[derive(Debug, Clone, Copy, PartialEq, Eq, Structural)]
pub enum ContextState {
    /// Activated; its setup has not been recorded.
    Uninitialized,
    /// Its setup is recorded and under way on the device.
    SetUp,
    /// Its setup has completed; it may draw.
    Ready,
}

/// Why the engine refuses.
#[derive(Debug, Clone, Copy, PartialEq, Eq, Structural)]
pub enum EngineError {
    /// No queue family offers graphics and compute together.
    NoGraphicsQueue,
    /// The engine was made without a display and cannot present.
    Headless,
    /// A window is attached already.
    AlreadyAttached,
    /// No window is attached.
    NotAttached,
    /// No render context is active.
    NoRenderContext,
    /// The call does not belong to the state the engine is in.
    OutOfOrder,
}

/// All that the engine knows.
pub struct EngineState {
    pub enable_validation: bool,
    pub headless: bool,
    /// Family of the graphics queue, which also owns the command pool.
    pub graphics_queue_family: u32,
    pub window: Option<WindowState>,
    pub context: Option<ActiveRenderContext>,
    pub context_state: ContextState,
}

impl EngineState {
    /// Whether the engine is in the middle of a frame or of a rebuild.
    pub open spec fn busy(self) -> bool {
        match self.window {
            Some(w) => in_frame(w.phase) || w.phase == FramePhase::Rebuilding,
            None => false,
        }
    }

    /// Whether the engine can draw: its window is attached and its render
    /// context is set up.
    pub open spec fn can_draw(self) -> bool {
        self.window is Some && self.context is Some && self.context_state == ContextState::Ready
    }
}

/// What a one-time setup records and how it is run.
#[derive(Debug, Clone)]
pub struct SetupRecording {
    /// How the one-time command buffer is recorded, submitted and waited
    /// for.
    pub steps: Vec<CommandStep>,
    /// Barrier for a depth image that is still in no layout.
    pub depth_barrier: Option<ImageBarrier>,
    /// The render context's own setup.
    pub commands: Vec<SetupCommand>,
}

/// One step in taking the engine down.
#[derive(Debug, Clone, Copy, PartialEq, Eq, Structural)]
pub enum TeardownStep {
    WaitDeviceIdle,
    /// Destroy what the render context owns: shader objects, buffers and
    /// descriptors.
    DestroyRenderContext,
    /// A step in destroying what the window owns.
    Window(WindowStep),
    DestroyCommandPool,
    DestroyDevice,
    DestroyDebugMessenger,
    DestroyInstance,
}

/// The order in which the engine is taken down: after one drain of the
/// device, what was created last goes first, and the instance goes last.
pub open spec fn teardown_steps(s: EngineState) -> Seq<TeardownStep> {
    seq![TeardownStep::WaitDeviceIdle] + (if s.context is Some {
        seq![TeardownStep::DestroyRenderContext]
    } else {
        Seq::empty()
    }) + (match s.window {
        Some(w) => window_teardown_steps(w).map_values(|step: WindowStep| TeardownStep::Window(step)),
        None => Seq::empty(),
    }) + seq![TeardownStep::DestroyCommandPool, TeardownStep::DestroyDevice] + (
    if s.enable_validation {
        seq![TeardownStep::DestroyDebugMessenger]
    } else {
        Seq::empty()
    }) + seq![TeardownStep::DestroyInstance]
}

/// What the engine answers to an event of the frame loop: the next step,
/// and with a recording the commands of the render context.
pub open spec fn engine_step(s: EngineState, event: FrameEvent) -> (
    EngineState,
    FrameAction,
    Seq<DrawCommand>,
) {
    if s.window is None {
        (s, FrameAction::Abort(FrameError::NotAttached), Seq::empty())
    } else if !(s.context is Some && s.context_state == ContextState::Ready) {
        (s, FrameAction::Abort(FrameError::NoRenderContext), Seq::empty())
    } else {
        let (window, action) = frame_step(s.window->Some_0, event);
        let commands = match action {
            FrameAction::Record(recording) => s.context->Some_0.draw_commands(
                recording.render_area,
            ),
            _ => Seq::empty(),
        };
        (EngineState { window: Some(window), ..s }, action, commands)
    }
}

/// The engine.
#[derive(Debug)]
pub struct VulkanEngine {
    enable_validation: bool,
    headless: bool,
    graphics_queue_family: u32,
    window: Option<VulkanWindow>,
    context: Option<ActiveRenderContext>,
    context_state: ContextState,
}

impl View for VulkanEngine {
    type V = EngineState;

    closed spec fn view(&self) -> EngineState {
        EngineState {
            enable_validation: self.enable_validation,
            headless: self.headless,
            graphics_queue_family: self.graphics_queue_family,
            window: match self.window {
                Some(w) => Some(w@),
                None => None,
            },
            context: self.context,
            context_state: self.context_state,
        }
    }
}

impl VulkanEngine {
    /// Makes an engine for a device with these queue families. Without a
    /// family for graphics and compute there is no engine.
    pub fn new(enable_validation: bool, headless: bool, queue_family_indices: QueueFamilyIndices) -> (engine:
        Result<Self, EngineError>)
        ensures
            match queue_family_indices.graphics_general {
                Some(family) => engine is Ok && engine->Ok_0@ == (EngineState {
                    enable_validation,
                    headless,
                    graphics_queue_family: family,
                    window: None,
                    context: None,
                    context_state: ContextState::Uninitialized,
                }),
                None => engine is Err && engine->Err_0 == EngineError::NoGraphicsQueue,
            },
    {
        match queue_family_indices.graphics_general {
            Some(family) => Ok(
                VulkanEngine {
                    enable_validation,
                    headless,
                    graphics_queue_family: family,
                    window: None,
                    context: None,
                    context_state: ContextState::Uninitialized,
                },
            ),
            None => Err(EngineError::NoGraphicsQueue),
        }
    }

    /// The order in which a command buffer is reset, begun, filled and
    /// ended.
    pub fn record_command_buffer(&self) -> (steps: Vec<CommandStep>)
        ensures
            steps@ == recording_steps(),
    {
        let mut steps: Vec<CommandStep> = Vec::new();
        steps.push(CommandStep::Reset);
        steps.push(CommandStep::Begin);
        steps.push(CommandStep::Body);
        steps.push(CommandStep::End);
        assert(steps@ =~= recording_steps());
        steps
    }

    /// The steps that submit a recorded command buffer on its own.
    pub fn submit_command_buffer(&self) -> (steps: Vec<CommandStep>)
        ensures
            steps@ == seq![CommandStep::Submit],
    {
        let mut steps: Vec<CommandStep> = Vec::new();
        steps.push(CommandStep::Submit);
        assert(steps@ =~= seq![CommandStep::Submit]);
        steps
    }

    /// The order of a synchronous one-time submission: record, drain the
    /// queue, submit, drain the queue again, so that the work is complete on
    /// return.
    pub fn record_and_submit_one_time_command_buffer(&self) -> (steps: Vec<CommandStep>)
        ensures
            steps@ == one_time_steps(),
    {
        let mut steps = self.record_command_buffer();
        steps.push(CommandStep::WaitQueueIdle);
        let mut submit = self.submit_command_buffer();
        steps.append(&mut submit);
        steps.push(CommandStep::WaitQueueIdle);
        assert(steps@ =~= one_time_steps());
        steps
    }

    /// Family of the graphics queue.
    pub fn graphics_queue_family(&self) -> (family: u32)
        ensures
            family == self@.graphics_queue_family,
    {
        self.graphics_queue_family
    }

    /// State of the attached window, if there is one.
    pub fn window_state(&self) -> (state: Option<WindowState>)
        ensures
            state == self@.window,
            state matches Some(w) ==> w.wf(),
    {
        match &self.window {
            Some(w) => Some(w.state()),
            None => None,
        }
    }

    /// How far the active render context has come, if there is one.
    pub fn context_state(&self) -> (state: Option<ContextState>)
        ensures
            state == (if self@.context is Some {
                Some(self@.context_state)
            } else {
                None
            }),
    {
        match &self.context {
            Some(_) => Some(self.context_state),
            None => None,
        }
    }

    /// Attaches the window: chooses the swapchain parameters for a surface
    /// of the given format and lists the steps that build the window's
    /// resources. Refused, and nothing changed, by an engine without
    /// display, and by one that has a window already.
    pub fn add_window(
        &mut self,
        surface_capabilities: &SurfaceCapabilities,
        present_modes: &Vec<i32>,
        format: i32,
        window_width: u32,
        window_height: u32,
    ) -> (steps: Result<Vec<WindowStep>, EngineError>)
        ensures
            old(self)@.headless ==> steps is Err && steps->Err_0 == EngineError::Headless
                && final(self)@ == old(self)@,
            !old(self)@.headless && old(self)@.window is Some ==> steps is Err && steps->Err_0
                == EngineError::AlreadyAttached && final(self)@ == old(self)@,
            !old(self)@.headless && old(self)@.window is None ==> ({
                let swapchain = chosen_swapchain(
                    Extent2D { width: window_width, height: window_height },
                    *surface_capabilities,
                    present_modes@,
                    format,
                );
                &&& steps is Ok
                &&& steps->Ok_0@ == attach_steps(swapchain)
                &&& final(self)@ == (EngineState {
                    window: Some(building(swapchain)),
                    ..old(self)@
                })
            }),
    {
        if self.headless {
            return Err(EngineError::Headless);
        }
        if self.window.is_some() {
            return Err(EngineError::AlreadyAttached);
        }
        let (window, steps) = VulkanWindow::new(
            surface_capabilities,
            present_modes,
            format,
            Extent2D { width: window_width, height: window_height },
        );
        self.window = Some(window);
        Ok(steps)
    }

    /// Begins the resize of the window; see
    /// [`VulkanWindow::on_window_resized`]. The render context is told of
    /// the new size.
    pub fn on_resize(
        &mut self,
        surface_capabilities: &SurfaceCapabilities,
        present_modes: &Vec<i32>,
        new_width: u32,
        new_height: u32,
    ) -> (steps: Result<Vec<WindowStep>, FrameError>)
        ensures
            old(self)@.window is None ==> steps is Err && steps->Err_0 == FrameError::NotAttached
                && final(self)@ == old(self)@,
            old(self)@.window matches Some(w) && !can_resize(w.phase) ==> steps is Err
                && steps->Err_0 == FrameError::OutOfOrder && final(self)@ == old(self)@,
            old(self)@.window is Some && can_resize(old(self)@.window->Some_0.phase) ==> ({
                let w = old(self)@.window->Some_0;
                let swapchain = chosen_swapchain(
                    Extent2D { width: new_width, height: new_height },
                    *surface_capabilities,
                    present_modes@,
                    w.format,
                );
                &&& steps is Ok
                &&& steps->Ok_0@ == resize_steps(w, swapchain)
                &&& final(self)@ == (EngineState {
                    window: Some(rebuilding(w, swapchain)),
                    ..old(self)@
                })
            }),
    {
        let new_extent = Extent2D { width: new_width, height: new_height };
        let steps = match &mut self.window {
            Some(window) => window.on_window_resized(
                surface_capabilities,
                present_modes,
                new_extent,
            ),
            None => Err(FrameError::NotAttached),
        };
        if steps.is_ok() {
            if let Some(context) = &self.context {
                context.on_swapchain_resized(new_extent);
            }
        }
        steps
    }

    /// Ends a build or rebuild of the window's resources; see
    /// [`VulkanWindow::swapchain_created`].
    pub fn swapchain_created(&mut self, image_count: u32) -> (done: Result<(), FrameError>)
        ensures
            old(self)@.window is None ==> done is Err && done->Err_0 == FrameError::NotAttached
                && final(self)@ == old(self)@,
            old(self)@.window matches Some(w) && w.phase != FramePhase::Rebuilding ==> done is Err
                && done->Err_0 == FrameError::OutOfOrder && final(self)@ == old(self)@,
            old(self)@.window is Some && old(self)@.window->Some_0.phase == FramePhase::Rebuilding
                ==> done is Ok && final(self)@ == (EngineState {
                window: Some(rebuilt(old(self)@.window->Some_0, image_count)),
                ..old(self)@
            }),
    {
        match &mut self.window {
            Some(window) => window.swapchain_created(image_count),
            None => Err(FrameError::NotAttached),
        }
    }

    /// Makes `context` the active render context, not yet set up. Refused,
    /// and nothing changed, in the middle of a frame or of a rebuild.
    pub fn set_render_context(&mut self, context: ActiveRenderContext) -> (done: Result<
        (),
        EngineError,
    >)
        ensures
            old(self)@.busy() ==> done is Err && done->Err_0 == EngineError::OutOfOrder
                && final(self)@ == old(self)@,
            !old(self)@.busy() ==> done is Ok && final(self)@ == (EngineState {
                context: Some(context),
                context_state: ContextState::Uninitialized,
                ..old(self)@
            }),
    {
        let busy = match &self.window {
            Some(w) => match w.state().phase {
                FramePhase::Idle | FramePhase::NeedsResize | FramePhase::Failed => false,
                _ => true,
            },
            None => false,
        };
        if busy {
            return Err(EngineError::OutOfOrder);
        }
        self.context = Some(context);
        self.context_state = ContextState::Uninitialized;
        Ok(())
    }

    /// Records the one-time setup of the active render context, together
    /// with the first transition of the depth image where that is due. It
    /// runs once for each activation: refused, and nothing changed, without
    /// a context, for a context whose setup was recorded before, and in the
    /// middle of a frame or of a rebuild.
    pub fn record_setup(&mut self) -> (setup: Result<SetupRecording, EngineError>)
        ensures
            old(self)@.context is None ==> setup is Err && setup->Err_0
                == EngineError::NoRenderContext && final(self)@ == old(self)@,
            old(self)@.context is Some && (old(self)@.context_state != ContextState::Uninitialized
                || old(self)@.busy()) ==> setup is Err && setup->Err_0 == EngineError::OutOfOrder
                && final(self)@ == old(self)@,
            old(self)@.context is Some && old(self)@.context_state == ContextState::Uninitialized
                && !old(self)@.busy() ==> ({
                let fresh_depth = old(self)@.window matches Some(w) && w.phase == FramePhase::Idle
                    && w.depth_layout == ImageLayout::Undefined;
                &&& setup is Ok
                &&& setup->Ok_0.steps@ == one_time_steps()
                &&& setup->Ok_0.commands@ == old(self)@.context->Some_0.setup_commands()
                &&& setup->Ok_0.depth_barrier == (if fresh_depth {
                    Some(depth_attachment_barrier())
                } else {
                    None
                })
                &&& final(self)@ == (EngineState {
                    context_state: ContextState::SetUp,
                    window: if fresh_depth {
                        Some(
                            WindowState {
                                depth_layout: ImageLayout::DepthStencilAttachmentOptimal,
                                ..old(self)@.window->Some_0
                            },
                        )
                    } else {
                        old(self)@.window
                    },
                    ..old(self)@
                })
            }),
    {
        let busy = match &self.window {
            Some(w) => match w.state().phase {
                FramePhase::Idle | FramePhase::NeedsResize | FramePhase::Failed => false,
                _ => true,
            },
            None => false,
        };
        let commands = match &self.context {
            Some(context) => {
                match self.context_state {
                    ContextState::Uninitialized => {},
                    _ => {
                        return Err(EngineError::OutOfOrder);
                    },
                }
                if busy {
                    return Err(EngineError::OutOfOrder);
                }
                context.record_setup()
            },
            None => {
                return Err(EngineError::NoRenderContext);
            },
        };
        let depth_barrier = match &mut self.window {
            Some(window) => window.initialize_images(),
            None => None,
        };
        self.context_state = ContextState::SetUp;
        Ok(
            SetupRecording {
                steps: self.record_and_submit_one_time_command_buffer(),
                depth_barrier,
                commands,
            },
        )
    }

    /// Notes that the setup has run to completion on the device: the
    /// context may draw. Refused, and nothing changed, when no setup is
    /// under way.
    pub fn setup_complete(&mut self) -> (done: Result<(), EngineError>)
        ensures
            old(self)@.context is Some && old(self)@.context_state == ContextState::SetUp
                ==> done is Ok && final(self)@ == (EngineState {
                context_state: ContextState::Ready,
                ..old(self)@
            }),
            !(old(self)@.context is Some && old(self)@.context_state == ContextState::SetUp)
                ==> done is Err && done->Err_0 == (if old(self)@.context is None {
                EngineError::NoRenderContext
            } else {
                EngineError::OutOfOrder
            }) && final(self)@ == old(self)@,
    {
        if self.context.is_none() {
            return Err(EngineError::NoRenderContext);
        }
        match self.context_state {
            ContextState::SetUp => {
                self.context_state = ContextState::Ready;
                Ok(())
            },
            _ => Err(EngineError::OutOfOrder),
        }
    }

    /// Drives the frame loop: takes the outcome of the last device call and
    /// answers with the next one. Drawing without a window, or without a
    /// render context that is set up, is refused and changes nothing. With a
    /// recording come the commands that the render context draws the frame
    /// with.
    pub fn draw(&mut self, event: FrameEvent) -> (next: (FrameAction, Vec<DrawCommand>))
        ensures
            (final(self)@, next.0, next.1@) == engine_step(old(self)@, event),
    {
        let ready = match self.context_state {
            ContextState::Ready => self.context.is_some(),
            _ => false,
        };
        let action = match &mut self.window {
            Some(window) => {
                if !ready {
                    return (FrameAction::Abort(FrameError::NoRenderContext), Vec::new());
                }
                window.render_frame(event)
            },
            None => {
                return (FrameAction::Abort(FrameError::NotAttached), Vec::new());
            },
        };
        let commands = match (&action, &self.context) {
            (FrameAction::Record(recording), Some(context)) => context.record_draw(
                recording.render_area,
            ),
            _ => Vec::new(),
        };
        (action, commands)
    }

    /// Lists the steps that take the engine down, and gives up window and
    /// render context.
    pub fn shutdown(&mut self) -> (steps: Vec<TeardownStep>)
        ensures
            steps@ == teardown_steps(old(self)@),
            final(self)@ == (EngineState { window: None, context: None, ..old(self)@ }),
    {
        let mut steps: Vec<TeardownStep> = Vec::new();
        steps.push(TeardownStep::WaitDeviceIdle);
        if self.context.is_some() {
            steps.push(TeardownStep::DestroyRenderContext);
        }
        let ghost head = steps@;
        let mut detached: Option<VulkanWindow> = None;
        std::mem::swap(&mut self.window, &mut detached);
        if let Some(window) = detached {
            let ghost w = window@;
            let window_steps = window.teardown();
            let mut i: usize = 0;
            while i < window_steps.len()
                invariant
                    i <= window_steps@.len(),
                    window_steps@ == window_teardown_steps(w),
                    steps@ == head + window_teardown_steps(w).take(i as int).map_values(
                        |step: WindowStep| TeardownStep::Window(step),
                    ),
                decreases window_steps@.len() - i,
            {
                steps.push(TeardownStep::Window(window_steps[i]));
                i += 1;
                assert(steps@ =~= head + window_teardown_steps(w).take(i as int).map_values(
                    |step: WindowStep| TeardownStep::Window(step),
                ));
            }
            assert(window_teardown_steps(w).take(i as int) =~= window_teardown_steps(w));
        }
        steps.push(TeardownStep::DestroyCommandPool);
        steps.push(TeardownStep::DestroyDevice);
        if self.enable_validation {
            steps.push(TeardownStep::DestroyDebugMessenger);
        }
        steps.push(TeardownStep::DestroyInstance);
        assert(steps@ =~= teardown_steps(old(self)@));
        self.context = None;
        steps
    }
}

} // verus!
