use rem::config::Config;
use rem::device::{DeviceCandidate, DeviceKind, QueueFamily, SharedQueue};
use rem::geometry::Extent;
use rem::renderer::{Renderer, RendererBackend, BACKEND_VULKAN};
use rem::swapchain::{CompositeAlpha, SurfaceCapabilities};
use rem::vulkan::TeardownStep;
use rem::vulkan_context::{SetupAction, SetupEvent};
use rem::vulkan_renderer::{FrameAction, FrameEvent, SkipReason, SwapchainState};

fn ready_renderer() -> Renderer {
    let mut renderer = Renderer::new(BACKEND_VULKAN);
    assert_eq!(renderer.resumed(SetupEvent::WindowCreated), SetupAction::EnumerateDevices);
    let candidates = vec![DeviceCandidate {
        kind: DeviceKind::Cpu,
        swapchain_extension: true,
        queue_families: vec![QueueFamily { graphics: true, presents: true }],
    }];
    let queue = SharedQueue { device_index: 0, queue_family_index: 0 };
    assert_eq!(renderer.resumed(SetupEvent::DevicesEnumerated { candidates }), SetupAction::CreateQueue(queue));
    assert_eq!(renderer.resumed(SetupEvent::QueueCreated), SetupAction::QuerySurface(queue));
    let capabilities = SurfaceCapabilities {
        min_image_count: 2,
        formats: vec![44],
        composite_alphas: vec![CompositeAlpha::Opaque],
    };
    assert!(matches!(
        renderer.resumed(SetupEvent::SurfaceQueried { capabilities, window: Extent::new(1920, 1080) }),
        SetupAction::CreateSwapchain(_)
    ));
    assert_eq!(renderer.resumed(SetupEvent::SwapchainCreated { images: vec![1, 2] }), SetupAction::Ready);
    renderer
}

#[test]
fn only_the_vulkan_selector_is_supported() {
    assert_eq!(BACKEND_VULKAN, 0);
    assert!(Renderer::supports(0));
    assert!(!Renderer::supports(1));
    assert!(!Renderer::supports(2));
    assert!(!Renderer::supports(u8::MAX));
}

#[test]
fn default_settings_select_a_supported_backend() {
    assert!(Renderer::supports(Config::default().renderer));
}

#[test]
fn new_renderer_has_no_swapchain() {
    let renderer = Renderer::new(0);
    assert_eq!(renderer.swapchain_state(), SwapchainState::Uninitialized);
    match renderer.backend() {
        RendererBackend::Vulkan(backend) => {
            assert!(backend.renderer().is_none());
            assert_eq!(backend.render_ctx().queue, None);
        },
    }
}

#[test]
fn renderer_without_window_skips_frames() {
    let mut renderer = Renderer::new(0);
    renderer.resized();
    assert_eq!(
        renderer.render(FrameEvent::Requested, Extent::new(800, 600)),
        FrameAction::Skipped(SkipReason::Uninitialized)
    );
}

#[test]
fn renderer_draws_after_setup() {
    let mut renderer = ready_renderer();
    let window = Extent::new(1920, 1080);
    assert_eq!(renderer.swapchain_state(), SwapchainState::Valid);
    assert_eq!(renderer.render(FrameEvent::Requested, window), FrameAction::Acquire);
    assert!(matches!(
        renderer.render(FrameEvent::Acquired { image_index: 0, suboptimal: false }, window),
        FrameAction::Paint { frame: 1, after: None, image_index: 0, .. }
    ));
    assert_eq!(renderer.render(FrameEvent::Presented, window), FrameAction::Presented(1));
}

#[test]
fn renderer_resize_invalidates() {
    let mut renderer = ready_renderer();
    renderer.resized();
    assert_eq!(renderer.swapchain_state(), SwapchainState::Invalid);
    assert!(matches!(
        renderer.render(FrameEvent::Requested, Extent::new(640, 480)),
        FrameAction::Recreate { config, retire_after: None } if config.extent == Extent::new(640, 480)
    ));
}

#[test]
fn renderer_closing_and_shutdown_list_the_teardown() {
    let mut renderer = ready_renderer();
    assert_eq!(
        renderer.closing(),
        vec![TeardownStep::AbandonDrawingContext, TeardownStep::DropTargets, TeardownStep::DropSwapchain]
    );
    assert_eq!(renderer.swapchain_state(), SwapchainState::Destroyed);
    assert_eq!(renderer.shutdown(), vec![TeardownStep::ReleaseQueue]);
}
