use rem::device::{DeviceCandidate, DeviceKind, QueueFamily, SharedQueue};
use rem::geometry::Extent;
use rem::swapchain::{CompositeAlpha, ConfigError, PresentMode, SurfaceCapabilities, SwapchainConfig};
use rem::vulkan::{TeardownStep, VulkanBackend};
use rem::vulkan_context::{SetupAction, SetupError, SetupEvent, SetupPhase, VulkanRenderContext};
use rem::vulkan_renderer::{FrameAction, FrameEvent, SkipReason, SwapchainState};

fn candidates() -> Vec<DeviceCandidate> {
    vec![
        DeviceCandidate {
            kind: DeviceKind::IntegratedGpu,
            swapchain_extension: true,
            queue_families: vec![QueueFamily { graphics: true, presents: true }],
        },
        DeviceCandidate {
            kind: DeviceKind::DiscreteGpu,
            swapchain_extension: true,
            queue_families: vec![
                QueueFamily { graphics: false, presents: true },
                QueueFamily { graphics: true, presents: true },
            ],
        },
    ]
}

fn surface() -> SurfaceCapabilities {
    SurfaceCapabilities {
        min_image_count: 1,
        formats: vec![44, 50],
        composite_alphas: vec![CompositeAlpha::Opaque, CompositeAlpha::Inherit],
    }
}

fn config_of(width: u32, height: u32) -> SwapchainConfig {
    SwapchainConfig {
        min_image_count: 2,
        format: 44,
        extent: Extent::new(width, height),
        composite_alpha: CompositeAlpha::Opaque,
        present_mode: PresentMode::Fifo,
    }
}

fn recreate(config: SwapchainConfig) -> FrameAction {
    FrameAction::Recreate { config, retire_after: None }
}

const CHOSEN: SharedQueue = SharedQueue { device_index: 1, queue_family_index: 1 };

fn set_up(backend: &mut VulkanBackend, width: u32, height: u32) {
    let first = backend.resumed(SetupEvent::WindowCreated);
    if first == SetupAction::EnumerateDevices {
        backend.resumed(SetupEvent::DevicesEnumerated { candidates: candidates() });
        backend.resumed(SetupEvent::QueueCreated);
    }
    backend.resumed(SetupEvent::SurfaceQueried { capabilities: surface(), window: Extent::new(width, height) });
    assert_eq!(backend.resumed(SetupEvent::SwapchainCreated { images: vec![1, 2, 3] }), SetupAction::Ready);
}

#[test]
fn new_context_has_no_queue() {
    let context = VulkanRenderContext::new();
    assert_eq!(context.queue, None);
    assert_eq!(context.phase, SetupPhase::Idle);
}

#[test]
fn first_window_goes_through_the_whole_setup() {
    let mut context = VulkanRenderContext::new();
    let (action, renderer) = context.renderer_for_window(SetupEvent::WindowCreated);
    assert_eq!(action, SetupAction::EnumerateDevices);
    assert!(renderer.is_none());
    assert_eq!(context.phase, SetupPhase::EnumeratingDevices);

    let (action, renderer) = context.renderer_for_window(SetupEvent::DevicesEnumerated { candidates: candidates() });
    assert_eq!(action, SetupAction::CreateQueue(CHOSEN));
    assert!(renderer.is_none());
    assert_eq!(context.queue, None);

    let (action, renderer) = context.renderer_for_window(SetupEvent::QueueCreated);
    assert_eq!(action, SetupAction::QuerySurface(CHOSEN));
    assert!(renderer.is_none());
    assert_eq!(context.queue, Some(CHOSEN));

    let (action, renderer) = context.renderer_for_window(SetupEvent::SurfaceQueried {
        capabilities: surface(),
        window: Extent::new(800, 600),
    });
    assert_eq!(action, SetupAction::CreateSwapchain(config_of(800, 600)));
    assert!(renderer.is_none());

    let (action, renderer) = context.renderer_for_window(SetupEvent::SwapchainCreated { images: vec![5, 6] });
    assert_eq!(action, SetupAction::Ready);
    let renderer = renderer.unwrap();
    assert_eq!(renderer.state(), SwapchainState::Valid);
    assert_eq!(renderer.config(), config_of(800, 600));
    assert_eq!(renderer.targets().len(), 2);
    assert_eq!(context.phase, SetupPhase::Idle);
    assert_eq!(context.queue, Some(CHOSEN));
}

#[test]
fn later_window_shares_the_queue() {
    let mut context = VulkanRenderContext::new();
    context.renderer_for_window(SetupEvent::WindowCreated);
    context.renderer_for_window(SetupEvent::DevicesEnumerated { candidates: candidates() });
    context.renderer_for_window(SetupEvent::QueueCreated);
    context.renderer_for_window(SetupEvent::SurfaceQueried { capabilities: surface(), window: Extent::new(800, 600) });
    context.renderer_for_window(SetupEvent::SwapchainCreated { images: vec![5, 6] });

    let (action, _) = context.renderer_for_window(SetupEvent::WindowCreated);
    assert_eq!(action, SetupAction::QuerySurface(CHOSEN));
    let (action, _) = context.renderer_for_window(SetupEvent::SurfaceQueried {
        capabilities: surface(),
        window: Extent::new(300, 200),
    });
    assert_eq!(action, SetupAction::CreateSwapchain(config_of(300, 200)));
    let (action, renderer) = context.renderer_for_window(SetupEvent::SwapchainCreated { images: vec![7, 8, 9] });
    assert_eq!(action, SetupAction::Ready);
    assert_eq!(renderer.unwrap().targets().len(), 3);
    assert_eq!(context.queue, Some(CHOSEN));
}

#[test]
fn queue_once_made_is_kept_whatever_devices_are_listed() {
    let mut context = VulkanRenderContext::new();
    context.renderer_for_window(SetupEvent::WindowCreated);
    context.renderer_for_window(SetupEvent::DevicesEnumerated { candidates: candidates() });
    context.renderer_for_window(SetupEvent::QueueCreated);
    let (action, _) = context.renderer_for_window(SetupEvent::DevicesEnumerated { candidates: vec![] });
    assert_eq!(action, SetupAction::Ignored);
    let (action, _) = context.renderer_for_window(SetupEvent::QueueCreated);
    assert_eq!(action, SetupAction::Ignored);
    assert_eq!(context.queue, Some(CHOSEN));
}

#[test]
fn no_suitable_device_is_fatal() {
    let mut context = VulkanRenderContext::new();
    context.renderer_for_window(SetupEvent::WindowCreated);
    let unusable = vec![DeviceCandidate {
        kind: DeviceKind::DiscreteGpu,
        swapchain_extension: false,
        queue_families: vec![QueueFamily { graphics: true, presents: true }],
    }];
    let (action, renderer) = context.renderer_for_window(SetupEvent::DevicesEnumerated { candidates: unusable });
    assert_eq!(action, SetupAction::Fatal(SetupError::NoSuitableDevice));
    assert!(renderer.is_none());
    assert_eq!(context.queue, None);
    assert_eq!(context.phase, SetupPhase::Idle);
}

#[test]
fn surface_without_format_is_fatal() {
    let mut backend = VulkanBackend::default();
    backend.resumed(SetupEvent::WindowCreated);
    backend.resumed(SetupEvent::DevicesEnumerated { candidates: candidates() });
    backend.resumed(SetupEvent::QueueCreated);
    let bare = SurfaceCapabilities { min_image_count: 2, formats: vec![], composite_alphas: vec![CompositeAlpha::Opaque] };
    assert_eq!(
        backend.resumed(SetupEvent::SurfaceQueried { capabilities: bare, window: Extent::new(800, 600) }),
        SetupAction::Fatal(SetupError::Surface(ConfigError::NoFormat))
    );
    assert_eq!(backend.swapchain_state(), SwapchainState::Uninitialized);
}

#[test]
fn surface_without_composite_alpha_is_fatal() {
    let mut backend = VulkanBackend::default();
    backend.resumed(SetupEvent::WindowCreated);
    backend.resumed(SetupEvent::DevicesEnumerated { candidates: candidates() });
    backend.resumed(SetupEvent::QueueCreated);
    let bare = SurfaceCapabilities { min_image_count: 2, formats: vec![44], composite_alphas: vec![] };
    assert_eq!(
        backend.resumed(SetupEvent::SurfaceQueried { capabilities: bare, window: Extent::new(800, 600) }),
        SetupAction::Fatal(SetupError::Surface(ConfigError::NoCompositeAlpha))
    );
}

#[test]
fn setup_events_out_of_turn_are_ignored() {
    let mut context = VulkanRenderContext::new();
    let (action, _) = context.renderer_for_window(SetupEvent::QueueCreated);
    assert_eq!(action, SetupAction::Ignored);
    let (action, _) = context.renderer_for_window(SetupEvent::SwapchainCreated { images: vec![1, 2] });
    assert_eq!(action, SetupAction::Ignored);
    let (action, _) = context.renderer_for_window(SetupEvent::SurfaceQueried {
        capabilities: surface(),
        window: Extent::new(1, 1),
    });
    assert_eq!(action, SetupAction::Ignored);
    assert_eq!(context, VulkanRenderContext::new());
    context.renderer_for_window(SetupEvent::WindowCreated);
    let (action, _) = context.renderer_for_window(SetupEvent::WindowCreated);
    assert_eq!(action, SetupAction::Ignored);
    assert_eq!(context.phase, SetupPhase::EnumeratingDevices);
}

#[test]
fn backend_without_window_is_uninitialized() {
    let mut backend = VulkanBackend::default();
    assert_eq!(backend.swapchain_state(), SwapchainState::Uninitialized);
    assert!(backend.renderer().is_none());
    assert_eq!(backend.render_ctx(), VulkanRenderContext::new());
    assert_eq!(
        backend.render(FrameEvent::Requested, Extent::new(800, 600)),
        FrameAction::Skipped(SkipReason::Uninitialized)
    );
    assert_eq!(backend.render(FrameEvent::Presented, Extent::new(800, 600)), FrameAction::Ignored);
    backend.resized();
    assert_eq!(backend.swapchain_state(), SwapchainState::Uninitialized);
}

#[test]
fn backend_is_valid_after_setup() {
    let mut backend = VulkanBackend::default();
    set_up(&mut backend, 800, 600);
    assert_eq!(backend.swapchain_state(), SwapchainState::Valid);
    assert_eq!(backend.renderer().unwrap().config(), config_of(800, 600));
    assert_eq!(backend.render_ctx().queue, Some(CHOSEN));
}

#[test]
fn backend_resize_invalidates_and_next_frame_recreates() {
    let mut backend = VulkanBackend::default();
    set_up(&mut backend, 800, 600);
    backend.resized();
    assert_eq!(backend.swapchain_state(), SwapchainState::Invalid);
    assert_eq!(
        backend.render(FrameEvent::Requested, Extent::new(1000, 700)),
        recreate(config_of(1000, 700))
    );
    assert_eq!(
        backend.render(FrameEvent::Recreated { images: vec![4, 5] }, Extent::new(1000, 700)),
        FrameAction::Acquire
    );
    assert_eq!(backend.swapchain_state(), SwapchainState::Valid);
}

#[test]
fn second_setup_replaces_the_renderer() {
    let mut backend = VulkanBackend::default();
    set_up(&mut backend, 800, 600);
    backend.resized();
    assert_eq!(backend.resumed(SetupEvent::WindowCreated), SetupAction::QuerySurface(CHOSEN));
    assert_eq!(backend.swapchain_state(), SwapchainState::Invalid);
    backend.resumed(SetupEvent::SurfaceQueried { capabilities: surface(), window: Extent::new(400, 300) });
    assert_eq!(backend.resumed(SetupEvent::SwapchainCreated { images: vec![8, 9] }), SetupAction::Ready);
    assert_eq!(backend.swapchain_state(), SwapchainState::Valid);
    assert_eq!(backend.renderer().unwrap().config(), config_of(400, 300));
}

#[test]
fn closing_releases_context_then_targets_then_swapchain() {
    let mut backend = VulkanBackend::default();
    set_up(&mut backend, 800, 600);
    assert_eq!(
        backend.closing(),
        vec![TeardownStep::AbandonDrawingContext, TeardownStep::DropTargets, TeardownStep::DropSwapchain]
    );
    assert_eq!(backend.swapchain_state(), SwapchainState::Destroyed);
    assert_eq!(backend.render_ctx().queue, Some(CHOSEN));
    assert_eq!(
        backend.render(FrameEvent::Requested, Extent::new(800, 600)),
        FrameAction::Skipped(SkipReason::Destroyed)
    );
}

#[test]
fn closing_twice_releases_nothing_more() {
    let mut backend = VulkanBackend::default();
    set_up(&mut backend, 800, 600);
    backend.closing();
    assert_eq!(backend.closing(), vec![]);
    assert_eq!(backend.swapchain_state(), SwapchainState::Destroyed);
}

#[test]
fn closing_without_window_releases_nothing() {
    let mut backend = VulkanBackend::default();
    assert_eq!(backend.closing(), vec![]);
    assert_eq!(backend.swapchain_state(), SwapchainState::Uninitialized);
}

#[test]
fn shutdown_releases_the_queue_last() {
    let mut backend = VulkanBackend::default();
    set_up(&mut backend, 800, 600);
    assert_eq!(
        backend.shutdown(),
        vec![
            TeardownStep::AbandonDrawingContext,
            TeardownStep::DropTargets,
            TeardownStep::DropSwapchain,
            TeardownStep::ReleaseQueue,
        ]
    );
    assert_eq!(backend.render_ctx().queue, None);
    assert_eq!(backend.swapchain_state(), SwapchainState::Destroyed);
    assert_eq!(backend.shutdown(), vec![]);
}

#[test]
fn shutdown_after_closing_releases_the_queue_only() {
    let mut backend = VulkanBackend::default();
    set_up(&mut backend, 800, 600);
    backend.closing();
    assert_eq!(backend.shutdown(), vec![TeardownStep::ReleaseQueue]);
}

#[test]
fn shutdown_of_an_unused_backend_releases_nothing() {
    let mut backend = VulkanBackend::default();
    assert_eq!(backend.shutdown(), vec![]);
}
