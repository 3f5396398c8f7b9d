//! Description of a presentable image in the terms of the 2D drawing
//! library's backend: handle, size, format and layout, with no pixel copied.

use vstd::prelude::*;
use crate::geometry::Extent;
use crate::swapchain::DrawTarget;

verus! {

/// Format code of 8-bit BGRA, unsigned normalized.
pub const FORMAT_B8G8R8A8_UNORM: u32 = 44;

/// Pixel layout as the drawing library names it.
#[derive(Clone, Copy, Debug, PartialEq, Eq, Structural)]
pub enum ColorType {
    Bgra8888,
}

/// Memory arrangement of an image.
#[derive(Clone, Copy, Debug, PartialEq, Eq, Structural)]
pub enum ImageTiling {
    Optimal,
    Linear,
}

/// What an image is laid out for when drawing starts.
#[derive(Clone, Copy, Debug, PartialEq, Eq, Structural)]
pub enum ImageLayout {
    Undefined,
    ColorAttachmentOptimal,
}

/// Which corner of the image holds the first row.
#[derive(Clone, Copy, Debug, PartialEq, Eq, Structural)]
pub enum SurfaceOrigin {
    TopLeft,
    BottomLeft,
}

/// A color format in both vocabularies.
#[derive(Clone, Copy, Debug, PartialEq, Eq, Structural)]
pub struct BridgedFormat {
    /// Format code handed to the drawing library.
    pub format: u32,
    pub color_type: ColorType,
}

/// All that the drawing library needs to wrap one image as a surface.
#[derive(Clone, Copy, Debug, PartialEq, Eq, Structural)]
pub struct RenderTarget {
    /// The driver's handle of the image.
    pub image: u64,
    pub width: i32,
    pub height: i32,
    pub format: u32,
    pub color_type: ColorType,
    pub tiling: ImageTiling,
    pub layout: ImageLayout,
    /// Number of mip levels.
    pub level_count: u32,
    pub origin: SurfaceOrigin,
}

/// Why an image cannot be handed to the drawing library.
#[derive(Clone, Copy, Debug, PartialEq, Eq, Structural)]
pub enum BridgeError {
    /// No mapping is known for this format code. No other format is tried
    /// in its place: colors would come out wrong.
    UnsupportedFormat(u32),
    /// A side of the image does not fit the drawing library's signed size.
    ExtentTooLarge(Extent),
}

/// The mapping of color formats, one line per supported format.
pub open spec fn spec_bridge_format(format: u32) -> Option<BridgedFormat> {
    if format == FORMAT_B8G8R8A8_UNORM {
        Some(BridgedFormat { format: FORMAT_B8G8R8A8_UNORM, color_type: ColorType::Bgra8888 })
    } else {
        None
    }
}

/// Maps a color format code to both vocabularies, or to `None` where it is
/// not supported.
#[verifier::when_used_as_spec(spec_bridge_format)]
pub fn bridge_format(format: u32) -> (res: Option<BridgedFormat>)
    ensures
        res == spec_bridge_format(format),
{
    if format == FORMAT_B8G8R8A8_UNORM {
        Some(BridgedFormat { format: FORMAT_B8G8R8A8_UNORM, color_type: ColorType::Bgra8888 })
    } else {
        None
    }
}

/// The description of `target` for the drawing library. The format is
/// looked at before the size.
pub open spec fn spec_surface_for_framebuffer(target: DrawTarget) -> Result<
    RenderTarget,
    BridgeError,
> {
    match spec_bridge_format(target.format) {
        None => Err(BridgeError::UnsupportedFormat(target.format)),
        Some(bridged) => if target.extent.width > i32::MAX || target.extent.height > i32::MAX {
            Err(BridgeError::ExtentTooLarge(target.extent))
        } else {
            Ok(
                RenderTarget {
                    image: target.image,
                    width: target.extent.width as i32,
                    height: target.extent.height as i32,
                    format: bridged.format,
                    color_type: bridged.color_type,
                    tiling: ImageTiling::Optimal,
                    layout: ImageLayout::ColorAttachmentOptimal,
                    level_count: 1,
                    origin: SurfaceOrigin::TopLeft,
                },
            )
        },
    }
}

/// Describes one drawing target as a render target of the drawing library:
/// same image and size, the format mapped, optimal tiling, laid out as a
/// color attachment, one mip level, first row on top.
#[verifier::when_used_as_spec(spec_surface_for_framebuffer)]
pub fn surface_for_framebuffer(target: DrawTarget) -> (res: Result<RenderTarget, BridgeError>)
    ensures
        res == spec_surface_for_framebuffer(target),
{
    match bridge_format(target.format) {
        None => Err(BridgeError::UnsupportedFormat(target.format)),
        Some(bridged) => {
            if target.extent.width > i32::MAX as u32 || target.extent.height > i32::MAX as u32 {
                Err(BridgeError::ExtentTooLarge(target.extent))
            } else {
                Ok(
                    RenderTarget {
                        image: target.image,
                        width: target.extent.width as i32,
                        height: target.extent.height as i32,
                        format: bridged.format,
                        color_type: bridged.color_type,
                        tiling: ImageTiling::Optimal,
                        layout: ImageLayout::ColorAttachmentOptimal,
                        level_count: 1,
                        origin: SurfaceOrigin::TopLeft,
                    },
                )
            }
        },
    }
}

} // verus!
