//! The renderer that the windowing shell talks to, over whichever backend
//! the configuration selects.

use vstd::prelude::*;
use crate::geometry::Extent;
use crate::vulkan::{BackendModel, TeardownStep, VulkanBackend};
use crate::vulkan_context::{SetupAction, SetupEvent};
use crate::vulkan_renderer::{FrameAction, FrameEvent, SwapchainState};

verus! {

/// Selector of the Vulkan backend.
pub const BACKEND_VULKAN: u8 = 0;

/// The backends, each with its own state.
pub enum RendererBackend {
    Vulkan(VulkanBackend),
}

/// The renderer of the process.
pub struct Renderer {
    backend: RendererBackend,
}

impl View for Renderer {
    type V = BackendModel;

    closed spec fn view(&self) -> BackendModel {
        match self.backend {
            RendererBackend::Vulkan(backend) => backend@,
        }
    }
}

impl Renderer {
    /// The selector names a backend that exists.
    pub open spec fn spec_supports(renderer_type: u8) -> bool {
        renderer_type == BACKEND_VULKAN
    }

    /// Tells whether a selector names a backend that exists.
    #[verifier::when_used_as_spec(spec_supports)]
    pub fn supports(renderer_type: u8) -> (res: bool)
        ensures
            res == Self::spec_supports(renderer_type),
    {
        renderer_type == BACKEND_VULKAN
    }

    /// The renderer over the backend that `renderer_type` selects, with no
    /// window yet. A program cannot start on a selector that names none.
    pub fn new(renderer_type: u8) -> (res: Renderer)
        requires
            Self::spec_supports(renderer_type),
        ensures
            res@ == BackendModel::new(),
            res@.wf(),
    {
        Renderer { backend: RendererBackend::Vulkan(VulkanBackend::default()) }
    }

    /// The backend in use.
    pub fn backend(&self) -> (res: &RendererBackend)
        ensures
            res matches RendererBackend::Vulkan(backend) && backend@ == self@,
    {
        &self.backend
    }

    /// Where the window's swapchain stands.
    pub fn swapchain_state(&self) -> (res: SwapchainState)
        ensures
            res == self@.swapchain_state(),
    {
        match &self.backend {
            RendererBackend::Vulkan(backend) => backend.swapchain_state(),
        }
    }

    /// Takes one event of the setup of a window that was created, and says
    /// what to do next.
    pub fn resumed(&mut self, event: SetupEvent) -> (action: SetupAction)
        ensures
            final(self)@ == old(self)@.resumed(event),
            action == old(self)@.context.step(event).action,
            old(self)@.wf() ==> final(self)@.wf(),
    {
        match &mut self.backend {
            RendererBackend::Vulkan(backend) => backend.resumed(event),
        }
    }

    /// Takes note that the window was resized.
    pub fn resized(&mut self)
        ensures
            final(self)@ == old(self)@.resized(),
            old(self)@.wf() ==> final(self)@.wf(),
    {
        match &mut self.backend {
            RendererBackend::Vulkan(backend) => backend.resized(),
        }
    }

    /// Takes one event of the frame pipeline, with the window's size at that
    /// moment, and says what to do next.
    pub fn render(&mut self, event: FrameEvent, window: Extent) -> (action: FrameAction)
        ensures
            final(self)@ == old(self)@.rendered(event, window),
            action == old(self)@.render_action(event, window),
            old(self)@.wf() ==> final(self)@.wf(),
    {
        match &mut self.backend {
            RendererBackend::Vulkan(backend) => backend.render(event, window),
        }
    }

    /// Takes note that the window is closing, and lists what has to be
    /// released, in order.
    pub fn closing(&mut self) -> (steps: Vec<TeardownStep>)
        ensures
            final(self)@ == old(self)@.closed(),
            steps@ == old(self)@.window_teardown(),
            old(self)@.wf() ==> final(self)@.wf(),
    {
        match &mut self.backend {
            RendererBackend::Vulkan(backend) => backend.closing(),
        }
    }

    /// Lists what has to be released at the end of the process, in order.
    pub fn shutdown(&mut self) -> (steps: Vec<TeardownStep>)
        ensures
            final(self)@ == old(self)@.shut_down(),
            steps@ == old(self)@.process_teardown(),
            old(self)@.wf() ==> final(self)@.wf(),
    {
        match &mut self.backend {
            RendererBackend::Vulkan(backend) => backend.shutdown(),
        }
    }
}

} // verus!
