use rem::bridge::{
    bridge_format, surface_for_framebuffer, BridgeError, BridgedFormat, ColorType, ImageLayout, ImageTiling,
    RenderTarget, SurfaceOrigin, FORMAT_B8G8R8A8_UNORM,
};
use rem::geometry::Extent;
use rem::swapchain::DrawTarget;

#[test]
fn bgra_is_bridged() {
    assert_eq!(FORMAT_B8G8R8A8_UNORM, 44);
    assert_eq!(bridge_format(44), Some(BridgedFormat { format: 44, color_type: ColorType::Bgra8888 }));
}

#[test]
fn other_formats_are_not_bridged() {
    assert_eq!(bridge_format(0), None);
    assert_eq!(bridge_format(37), None);
    assert_eq!(bridge_format(43), None);
    assert_eq!(bridge_format(45), None);
    assert_eq!(bridge_format(50), None);
    assert_eq!(bridge_format(u32::MAX), None);
}

#[test]
fn target_is_described_for_the_drawing_library() {
    let target = DrawTarget { image: 0xdead_beef, extent: Extent::new(1920, 1080), format: 44 };
    assert_eq!(
        surface_for_framebuffer(target),
        Ok(RenderTarget {
            image: 0xdead_beef,
            width: 1920,
            height: 1080,
            format: 44,
            color_type: ColorType::Bgra8888,
            tiling: ImageTiling::Optimal,
            layout: ImageLayout::ColorAttachmentOptimal,
            level_count: 1,
            origin: SurfaceOrigin::TopLeft,
        })
    );
}

#[test]
fn unsupported_format_is_refused() {
    let target = DrawTarget { image: 1, extent: Extent::new(800, 600), format: 37 };
    assert_eq!(surface_for_framebuffer(target), Err(BridgeError::UnsupportedFormat(37)));
}

#[test]
fn largest_signed_side_is_accepted() {
    let side = i32::MAX as u32;
    let target = DrawTarget { image: 1, extent: Extent::new(side, side), format: 44 };
    let described = surface_for_framebuffer(target).unwrap();
    assert_eq!(described.width, i32::MAX);
    assert_eq!(described.height, i32::MAX);
}

#[test]
fn side_past_the_signed_range_is_refused() {
    let side = i32::MAX as u32 + 1;
    let wide = DrawTarget { image: 1, extent: Extent::new(side, 600), format: 44 };
    assert_eq!(surface_for_framebuffer(wide), Err(BridgeError::ExtentTooLarge(Extent::new(side, 600))));
    let tall = DrawTarget { image: 1, extent: Extent::new(800, u32::MAX), format: 44 };
    assert_eq!(surface_for_framebuffer(tall), Err(BridgeError::ExtentTooLarge(Extent::new(800, u32::MAX))));
}

#[test]
fn format_is_looked_at_before_size() {
    let target = DrawTarget { image: 1, extent: Extent::new(u32::MAX, u32::MAX), format: 50 };
    assert_eq!(surface_for_framebuffer(target), Err(BridgeError::UnsupportedFormat(50)));
}
