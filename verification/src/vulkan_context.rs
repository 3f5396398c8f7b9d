//! The device context of the process, and the steps that give a new window
//! its swapchain manager.
//!
//! As with frames, the context is told what happened (`SetupEvent`) and
//! answers with what has to be done next (`SetupAction`). The shared queue is
//! chosen when the first window is set up and kept for every later one.

use vstd::prelude::*;
use crate::device::{select_device, spec_select_device, DeviceCandidate, SharedQueue};
use crate::geometry::Extent;
use crate::swapchain::{
    spec_initial_config, ConfigError, SurfaceCapabilities, SwapchainConfig, MIN_IMAGES,
};
use crate::vulkan_renderer::{RendererModel, VulkanRenderer};

verus! {

/// How far the setup of a window has come.
#[derive(Clone, Copy, Debug, PartialEq, Eq, Structural)]
pub enum SetupPhase {
    /// No window is being set up.
    Idle,
    /// The physical devices were asked for.
    EnumeratingDevices,
    /// The device and queue of this choice were asked for.
    CreatingQueue(SharedQueue),
    /// The capabilities of the window's surface were asked for.
    QueryingSurface,
    /// A swapchain made from this configuration was asked for.
    CreatingSwapchain(SwapchainConfig),
}

/// What the owner of the driver objects reports during setup.
#[derive(Clone, Debug, PartialEq, Eq)]
pub enum SetupEvent {
    /// A window exists and wants a renderer.
    WindowCreated,
    /// These are the physical devices, each described for the new window.
    DevicesEnumerated { candidates: Vec<DeviceCandidate> },
    /// The device and queue asked for exist.
    QueueCreated,
    /// This is what the window's surface supports, and the window's size.
    SurfaceQueried { capabilities: SurfaceCapabilities, window: Extent },
    /// The swapchain asked for exists; these are the handles of its images.
    SwapchainCreated { images: Vec<u64> },
}

/// Why a window cannot get a renderer.
#[derive(Clone, Copy, Debug, PartialEq, Eq, Structural)]
pub enum SetupError {
    /// No physical device can draw and present to the window.
    NoSuitableDevice,
    /// The window's surface admits no swapchain.
    Surface(ConfigError),
}

/// What has to be done next during setup.
#[derive(Clone, Copy, Debug, PartialEq, Eq, Structural)]
pub enum SetupAction {
    /// List the physical devices, then report `DevicesEnumerated`.
    EnumerateDevices,
    /// Create the logical device with one queue of the chosen family on the
    /// chosen device, then report `QueueCreated`.
    CreateQueue(SharedQueue),
    /// Ask the device of the shared queue what the window's surface
    /// supports, then report `SurfaceQueried`.
    QuerySurface(SharedQueue),
    /// Create the window's swapchain, then report `SwapchainCreated`.
    CreateSwapchain(SwapchainConfig),
    /// The window has its renderer.
    Ready,
    /// The window cannot be served; there is no lesser way to go on.
    Fatal(SetupError),
    /// The event answers no action that is outstanding; nothing changed.
    Ignored,
}

/// The device context: the one queue that all windows share, once chosen.
#[derive(Clone, Copy, Debug, PartialEq, Eq, Structural)]
pub struct VulkanRenderContext {
    pub queue: Option<SharedQueue>,
    pub phase: SetupPhase,
}

/// A context, the action that came with it, and the manager of the window
/// where the setup is complete.
pub struct SetupStep {
    pub next: VulkanRenderContext,
    pub action: SetupAction,
    pub renderer: Option<RendererModel>,
}

impl VulkanRenderContext {
    /// The context's answer to `event`.
    pub open spec fn step(self, event: SetupEvent) -> SetupStep {
        match (self.phase, event) {
            (SetupPhase::Idle, SetupEvent::WindowCreated) => match self.queue {
                Some(queue) => SetupStep {
                    next: VulkanRenderContext { phase: SetupPhase::QueryingSurface, ..self },
                    action: SetupAction::QuerySurface(queue),
                    renderer: None,
                },
                None => SetupStep {
                    next: VulkanRenderContext { phase: SetupPhase::EnumeratingDevices, ..self },
                    action: SetupAction::EnumerateDevices,
                    renderer: None,
                },
            },
            (SetupPhase::EnumeratingDevices, SetupEvent::DevicesEnumerated { candidates }) => {
                match spec_select_device(candidates@) {
                    Some(queue) => SetupStep {
                        next: VulkanRenderContext {
                            phase: SetupPhase::CreatingQueue(queue),
                            ..self
                        },
                        action: SetupAction::CreateQueue(queue),
                        renderer: None,
                    },
                    None => SetupStep {
                        next: VulkanRenderContext { phase: SetupPhase::Idle, ..self },
                        action: SetupAction::Fatal(SetupError::NoSuitableDevice),
                        renderer: None,
                    },
                }
            },
            (SetupPhase::CreatingQueue(created), SetupEvent::QueueCreated) => {
                let queue = match self.queue {
                    Some(existing) => existing,
                    None => created,
                };
                SetupStep {
                    next: VulkanRenderContext {
                        queue: Some(queue),
                        phase: SetupPhase::QueryingSurface,
                    },
                    action: SetupAction::QuerySurface(queue),
                    renderer: None,
                }
            },
            (SetupPhase::QueryingSurface, SetupEvent::SurfaceQueried { capabilities, window }) => {
                match spec_initial_config(
                    capabilities.formats@,
                    capabilities.composite_alphas@,
                    capabilities.min_image_count,
                    window,
                ) {
                    Ok(config) => SetupStep {
                        next: VulkanRenderContext {
                            phase: SetupPhase::CreatingSwapchain(config),
                            ..self
                        },
                        action: SetupAction::CreateSwapchain(config),
                        renderer: None,
                    },
                    Err(error) => SetupStep {
                        next: VulkanRenderContext { phase: SetupPhase::Idle, ..self },
                        action: SetupAction::Fatal(SetupError::Surface(error)),
                        renderer: None,
                    },
                }
            },
            (SetupPhase::CreatingSwapchain(config), SetupEvent::SwapchainCreated { images }) => {
                SetupStep {
                    next: VulkanRenderContext { phase: SetupPhase::Idle, ..self },
                    action: SetupAction::Ready,
                    renderer: Some(RendererModel::new(config, images@)),
                }
            },
            _ => SetupStep { next: self, action: SetupAction::Ignored, renderer: None },
        }
    }

    /// A context without a queue, with no setup in progress.
    pub fn new() -> (res: VulkanRenderContext)
        ensures
            res == (VulkanRenderContext { queue: None, phase: SetupPhase::Idle }),
    {
        VulkanRenderContext { queue: None, phase: SetupPhase::Idle }
    }

    /// Takes one event of a window's setup and says what to do next; the
    /// last step hands out the window's swapchain manager.
    ///
    /// The first window has the devices listed and the best one chosen; a
    /// process without a suitable device cannot go on. Every later window
    /// goes straight to its surface, on the queue chosen then. The swapchain
    /// takes the first color format and compositing mode of the surface, at
    /// least two images, vertical sync and the window's size.
    pub fn renderer_for_window(&mut self, event: SetupEvent) -> (res: (
        SetupAction,
        Option<VulkanRenderer>,
    ))
        ensures
            *final(self) == old(self).step(event).next,
            res.0 == old(self).step(event).action,
            match res.1 {
                Some(renderer) => old(self).step(event).renderer == Some(renderer@) && renderer@.wf(),
                None => old(self).step(event).renderer is None,
            },
    {
        match self.phase {
            SetupPhase::Idle => match event {
                SetupEvent::WindowCreated => match self.queue {
                    Some(queue) => {
                        self.phase = SetupPhase::QueryingSurface;
                        (SetupAction::QuerySurface(queue), None)
                    },
                    None => {
                        self.phase = SetupPhase::EnumeratingDevices;
                        (SetupAction::EnumerateDevices, None)
                    },
                },
                _ => (SetupAction::Ignored, None),
            },
            SetupPhase::EnumeratingDevices => match event {
                SetupEvent::DevicesEnumerated { candidates } => match select_device(&candidates) {
                    Some(queue) => {
                        self.phase = SetupPhase::CreatingQueue(queue);
                        (SetupAction::CreateQueue(queue), None)
                    },
                    None => {
                        self.phase = SetupPhase::Idle;
                        (SetupAction::Fatal(SetupError::NoSuitableDevice), None)
                    },
                },
                _ => (SetupAction::Ignored, None),
            },
            SetupPhase::CreatingQueue(created) => match event {
                SetupEvent::QueueCreated => {
                    let queue = match self.queue {
                        Some(existing) => existing,
                        None => created,
                    };
                    self.queue = Some(queue);
                    self.phase = SetupPhase::QueryingSurface;
                    (SetupAction::QuerySurface(queue), None)
                },
                _ => (SetupAction::Ignored, None),
            },
            SetupPhase::QueryingSurface => match event {
                SetupEvent::SurfaceQueried { capabilities, window } => {
                    match SwapchainConfig::initial(&capabilities, window) {
                        Ok(config) => {
                            self.phase = SetupPhase::CreatingSwapchain(config);
                            (SetupAction::CreateSwapchain(config), None)
                        },
                        Err(error) => {
                            self.phase = SetupPhase::Idle;
                            (SetupAction::Fatal(SetupError::Surface(error)), None)
                        },
                    }
                },
                _ => (SetupAction::Ignored, None),
            },
            SetupPhase::CreatingSwapchain(config) => match event {
                SetupEvent::SwapchainCreated { images } => {
                    self.phase = SetupPhase::Idle;
                    (SetupAction::Ready, Some(VulkanRenderer::new(config, &images)))
                },
                _ => (SetupAction::Ignored, None),
            },
        }
    }
}

/// The process has at most one queue, made once: a context that has its
/// queue keeps it whatever it is told, and never asks for devices or for a
/// queue again.
pub proof fn lemma_queue_is_made_once(context: VulkanRenderContext, event: SetupEvent)
    requires
        context.queue is Some,
    ensures
        context.step(event).next.queue == context.queue,
        context.phase is Idle ==> !(context.step(event).action is EnumerateDevices) && !(
        context.step(event).action is CreateQueue),
        context.step(event).action matches SetupAction::QuerySurface(queue) ==> Some(queue)
            == context.queue,
{
}

/// A context without a queue gets one only from the devices that were
/// listed: the queue it keeps is the choice among them.
pub proof fn lemma_queue_is_the_selection(context: VulkanRenderContext, candidates: Vec<DeviceCandidate>)
    requires
        context.queue is None,
        context.phase is EnumeratingDevices,
    ensures
        ({
            let chosen = context.step(SetupEvent::DevicesEnumerated { candidates });
            match spec_select_device(candidates@) {
                Some(queue) => {
                    &&& chosen.action == SetupAction::CreateQueue(queue)
                    &&& chosen.next.step(SetupEvent::QueueCreated).next.queue == Some(queue)
                },
                None => chosen.action == SetupAction::Fatal(SetupError::NoSuitableDevice),
            }
        }),
{
}

/// The swapchain of a new window asks for at least two images and for no
/// fewer than the surface's minimum, waits for vertical sync, and has the
/// window's size; its manager starts with one drawing target per image and
/// is valid exactly when the swapchain came with enough images.
pub proof fn lemma_setup_gives_one_target_per_image(
    context: VulkanRenderContext,
    capabilities: SurfaceCapabilities,
    window: Extent,
    images: Vec<u64>,
)
    requires
        context.phase is QueryingSurface,
        context.step(SetupEvent::SurfaceQueried { capabilities, window }).action is CreateSwapchain,
    ensures
        ({
            let asked = context.step(SetupEvent::SurfaceQueried { capabilities, window });
            let made = asked.next.step(SetupEvent::SwapchainCreated { images });
            &&& asked.action matches SetupAction::CreateSwapchain(config) && {
                &&& config.min_image_count >= MIN_IMAGES
                &&& config.min_image_count >= capabilities.min_image_count
                &&& config.present_mode is Fifo
                &&& config.extent == window
                &&& config.format == capabilities.formats@[0]
                &&& config.composite_alpha == capabilities.composite_alphas@[0]
                &&& made.renderer matches Some(renderer) && {
                    &&& renderer.wf()
                    &&& renderer.config == config
                    &&& renderer.targets.len() == images@.len()
                    &&& renderer.state is Valid <==> images@.len() >= config.min_image_count
                }
            }
            &&& made.action == SetupAction::Ready
            &&& made.next.phase is Idle
        }),
{
}

} // verus!
