//! The Vulkan backend: the device context and the swapchain manager of the
//! window, behind the three notifications of the windowing shell.

use vstd::prelude::*;
use crate::geometry::Extent;
use crate::vulkan_context::{SetupAction, SetupEvent, SetupPhase, VulkanRenderContext};
use crate::vulkan_renderer::{
    FrameAction, FrameEvent, RendererModel, SkipReason, SwapchainState, VulkanRenderer,
};

verus! {

/// One step of releasing the backend's resources.
#[derive(Clone, Copy, Debug, PartialEq, Eq, Structural)]
pub enum TeardownStep {
    /// Have the drawing library let go of everything it caches on the
    /// device, without waiting for the device.
    AbandonDrawingContext,
    /// Drop the drawing targets.
    DropTargets,
    /// Drop the swapchain.
    DropSwapchain,
    /// Drop the shared queue and, with it, the device.
    ReleaseQueue,
}

/// The backend as contracts see it.
pub struct BackendModel {
    pub context: VulkanRenderContext,
    pub renderer: Option<RendererModel>,
}

impl BackendModel {
    /// The backend of a process that has no window yet.
    pub open spec fn new() -> BackendModel {
        BackendModel {
            context: VulkanRenderContext { queue: None, phase: SetupPhase::Idle },
            renderer: None,
        }
    }

    /// What every backend satisfies: its swapchain manager, where it has
    /// one, is well formed.
    pub open spec fn wf(self) -> bool {
        self.renderer matches Some(renderer) ==> renderer.wf()
    }

    /// Where the window's swapchain stands.
    pub open spec fn swapchain_state(self) -> SwapchainState {
        match self.renderer {
            Some(renderer) => renderer.state,
            None => SwapchainState::Uninitialized,
        }
    }

    /// The backend after one event of a window's setup: a renderer that the
    /// setup hands out takes the place of the one before.
    pub open spec fn resumed(self, event: SetupEvent) -> BackendModel {
        BackendModel {
            context: self.context.step(event).next,
            renderer: match self.context.step(event).renderer {
                Some(renderer) => Some(renderer),
                None => self.renderer,
            },
        }
    }

    /// The backend after a resize notification.
    pub open spec fn resized(self) -> BackendModel {
        BackendModel {
            renderer: match self.renderer {
                Some(renderer) => Some(renderer.invalidated()),
                None => None,
            },
            ..self
        }
    }

    /// The backend after one event of the frame pipeline.
    pub open spec fn rendered(self, event: FrameEvent, window: Extent) -> BackendModel {
        BackendModel {
            renderer: match self.renderer {
                Some(renderer) => Some(renderer.step(event, window).next),
                None => None,
            },
            ..self
        }
    }

    /// What the backend answers to one event of the frame pipeline. Without
    /// a renderer there is nothing to draw to.
    pub open spec fn render_action(self, event: FrameEvent, window: Extent) -> FrameAction {
        match self.renderer {
            Some(renderer) => renderer.step(event, window).action,
            None => match event {
                FrameEvent::Requested => FrameAction::Skipped(SkipReason::Uninitialized),
                _ => FrameAction::Ignored,
            },
        }
    }

    /// The window's resources are still held.
    pub open spec fn holds_window_resources(self) -> bool {
        self.renderer matches Some(renderer) && !(renderer.state is Destroyed)
    }

    /// The steps that release the window's resources, in the order in which
    /// they have to be taken.
    pub open spec fn window_teardown(self) -> Seq<TeardownStep> {
        if self.holds_window_resources() {
            seq![
                TeardownStep::AbandonDrawingContext,
                TeardownStep::DropTargets,
                TeardownStep::DropSwapchain,
            ]
        } else {
            Seq::empty()
        }
    }

    /// The backend after its window closed. The device context stays.
    pub open spec fn closed(self) -> BackendModel {
        BackendModel {
            renderer: match self.renderer {
                Some(renderer) => Some(renderer.destroyed()),
                None => None,
            },
            ..self
        }
    }

    /// The steps that release everything, at the end of the process: the
    /// window's resources first, the shared queue last.
    pub open spec fn process_teardown(self) -> Seq<TeardownStep> {
        if self.context.queue is Some {
            self.window_teardown().push(TeardownStep::ReleaseQueue)
        } else {
            self.window_teardown()
        }
    }

    /// The backend at the end of the process.
    pub open spec fn shut_down(self) -> BackendModel {
        BackendModel {
            context: VulkanRenderContext { queue: None, phase: SetupPhase::Idle },
            renderer: self.closed().renderer,
        }
    }
}

/// The Vulkan backend of the process.
pub struct VulkanBackend {
    render_ctx: VulkanRenderContext,
    renderer: Option<VulkanRenderer>,
}

impl View for VulkanBackend {
    type V = BackendModel;

    closed spec fn view(&self) -> BackendModel {
        BackendModel {
            context: self.render_ctx,
            renderer: match self.renderer {
                Some(renderer) => Some(renderer@),
                None => None,
            },
        }
    }
}

impl Default for VulkanBackend {
    fn default() -> (res: VulkanBackend)
        ensures
            res@ == BackendModel::new(),
            res@.wf(),
    {
        VulkanBackend { render_ctx: VulkanRenderContext::new(), renderer: None }
    }
}

impl VulkanBackend {
    /// The device context.
    pub fn render_ctx(&self) -> (res: VulkanRenderContext)
        ensures
            res == self@.context,
    {
        self.render_ctx
    }

    /// The swapchain manager of the window, once the window has one.
    pub fn renderer(&self) -> (res: Option<&VulkanRenderer>)
        ensures
            match res {
                Some(renderer) => self@.renderer == Some(renderer@),
                None => self@.renderer is None,
            },
    {
        self.renderer.as_ref()
    }

    /// Where the window's swapchain stands.
    pub fn swapchain_state(&self) -> (res: SwapchainState)
        ensures
            res == self@.swapchain_state(),
    {
        match &self.renderer {
            Some(renderer) => renderer.state(),
            None => SwapchainState::Uninitialized,
        }
    }

    /// Takes one event of the setup of a window that was created, and says
    /// what to do next. The renderer that a complete setup hands out
    /// replaces the one before.
    pub fn resumed(&mut self, event: SetupEvent) -> (action: SetupAction)
        ensures
            final(self)@ == old(self)@.resumed(event),
            action == old(self)@.context.step(event).action,
            old(self)@.wf() ==> final(self)@.wf(),
    {
        let (action, renderer) = self.render_ctx.renderer_for_window(event);
        if renderer.is_some() {
            self.renderer = renderer;
        }
        action
    }

    /// Takes note that the window was resized: the swapchain, if there is
    /// one, has to be recreated before the next frame.
    pub fn resized(&mut self)
        ensures
            final(self)@ == old(self)@.resized(),
            old(self)@.wf() ==> final(self)@.wf(),
    {
        match &mut self.renderer {
            Some(renderer) => {
                renderer.invalidate_swapchain();
            },
            None => {},
        }
    }

    /// Takes one event of the frame pipeline, with the window's size at that
    /// moment, and says what to do next. Without a renderer a requested
    /// frame is skipped.
    pub fn render(&mut self, event: FrameEvent, window: Extent) -> (action: FrameAction)
        ensures
            final(self)@ == old(self)@.rendered(event, window),
            action == old(self)@.render_action(event, window),
            old(self)@.wf() ==> final(self)@.wf(),
    {
        match &mut self.renderer {
            Some(renderer) => renderer.draw_and_present(event, window),
            None => match event {
                FrameEvent::Requested => FrameAction::Skipped(SkipReason::Uninitialized),
                _ => FrameAction::Ignored,
            },
        }
    }

    /// Takes note that the window is closing, and lists what has to be
    /// released, in order: the drawing library's context before the targets,
    /// the targets before the swapchain. The device context stays.
    pub fn closing(&mut self) -> (steps: Vec<TeardownStep>)
        ensures
            final(self)@ == old(self)@.closed(),
            steps@ == old(self)@.window_teardown(),
            old(self)@.wf() ==> final(self)@.wf(),
    {
        let mut steps: Vec<TeardownStep> = Vec::new();
        match &mut self.renderer {
            Some(renderer) => {
                match renderer.state() {
                    SwapchainState::Destroyed => {},
                    _ => {
                        steps.push(TeardownStep::AbandonDrawingContext);
                        steps.push(TeardownStep::DropTargets);
                        steps.push(TeardownStep::DropSwapchain);
                    },
                }
                renderer.destroy();
            },
            None => {},
        }
        steps
    }

    /// Lists what has to be released at the end of the process, in order:
    /// what `closing` lists, then the shared queue.
    pub fn shutdown(&mut self) -> (steps: Vec<TeardownStep>)
        ensures
            final(self)@ == old(self)@.shut_down(),
            steps@ == old(self)@.process_teardown(),
            old(self)@.wf() ==> final(self)@.wf(),
    {
        let mut steps = self.closing();
        if self.render_ctx.queue.is_some() {
            steps.push(TeardownStep::ReleaseQueue);
        }
        self.render_ctx = VulkanRenderContext::new();
        steps
    }
}

/// The device context outlives the window's resources: whenever the shared
/// queue is released, it is released last, and where the window's resources
/// are still held, the drawing library's context is abandoned first, then
/// the targets go, then the swapchain.
pub proof fn lemma_teardown_order(backend: BackendModel)
    ensures
        forall|i: int|
            0 <= i < backend.process_teardown().len() && backend.process_teardown()[i]
                == TeardownStep::ReleaseQueue ==> i == backend.process_teardown().len() - 1,
        backend.holds_window_resources() ==> {
            &&& backend.process_teardown().len() >= 3
            &&& backend.process_teardown()[0] == TeardownStep::AbandonDrawingContext
            &&& backend.process_teardown()[1] == TeardownStep::DropTargets
            &&& backend.process_teardown()[2] == TeardownStep::DropSwapchain
        },
        backend.context.queue is Some ==> backend.process_teardown().last()
            == TeardownStep::ReleaseQueue,
        !backend.shut_down().holds_window_resources(),
        backend.shut_down().context.queue is None,
        backend.shut_down().process_teardown().len() == 0,
{
}

} // verus!
