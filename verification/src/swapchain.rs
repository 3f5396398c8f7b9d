//! Configuration of the presentable image chain and the drawing targets
//! built on it.

use vstd::prelude::*;
use crate::geometry::Extent;

verus! {

/// Fewest images a swapchain is ever asked for.
pub const MIN_IMAGES: u32 = 2;

/// How the presentation engine combines a window with what lies behind it.
#[derive(Clone, Copy, Debug, PartialEq, Eq, Structural)]
pub enum CompositeAlpha {
    Opaque,
    PreMultiplied,
    PostMultiplied,
    Inherit,
}

/// How presented images reach the display.
#[derive(Clone, Copy, Debug, PartialEq, Eq, Structural)]
pub enum PresentMode {
    Immediate,
    Mailbox,
    /// Vertical sync: images wait in a queue, none is torn.
    Fifo,
    FifoRelaxed,
}

/// What a window's surface supports, as the driver reports it.
#[derive(Clone, Debug, PartialEq, Eq)]
pub struct SurfaceCapabilities {
    /// Fewest images the surface accepts in a swapchain.
    pub min_image_count: u32,
    /// Color format codes, in the driver's order.
    pub formats: Vec<u32>,
    /// Compositing modes, in the driver's order.
    pub composite_alphas: Vec<CompositeAlpha>,
}

/// Everything a swapchain is created from.
#[derive(Clone, Copy, Debug, PartialEq, Eq, Structural)]
pub struct SwapchainConfig {
    pub min_image_count: u32,
    /// Color format code of the images.
    pub format: u32,
    pub extent: Extent,
    pub composite_alpha: CompositeAlpha,
    pub present_mode: PresentMode,
}

/// Why no swapchain can be configured for a surface.
#[derive(Clone, Copy, Debug, PartialEq, Eq, Structural)]
pub enum ConfigError {
    /// The surface supports no color format.
    NoFormat,
    /// The surface supports no compositing mode.
    NoCompositeAlpha,
}

/// The larger of the surface's minimum and `MIN_IMAGES`.
pub open spec fn spec_image_count(min_image_count: u32) -> u32 {
    if min_image_count >= MIN_IMAGES {
        min_image_count
    } else {
        MIN_IMAGES
    }
}

/// The configuration that a surface and a window size determine.
pub open spec fn spec_initial_config(
    formats: Seq<u32>,
    composite_alphas: Seq<CompositeAlpha>,
    min_image_count: u32,
    window: Extent,
) -> Result<SwapchainConfig, ConfigError> {
    if formats.len() == 0 {
        Err(ConfigError::NoFormat)
    } else if composite_alphas.len() == 0 {
        Err(ConfigError::NoCompositeAlpha)
    } else {
        Ok(
            SwapchainConfig {
                min_image_count: spec_image_count(min_image_count),
                format: formats[0],
                extent: window,
                composite_alpha: composite_alphas[0],
                present_mode: PresentMode::Fifo,
            },
        )
    }
}

impl SwapchainConfig {
    /// The configuration of the first swapchain of a window: the first color
    /// format and the first compositing mode that the surface supports, at
    /// least two images, vertical sync, and the window's size.
    pub fn initial(capabilities: &SurfaceCapabilities, window: Extent) -> (res: Result<
        SwapchainConfig,
        ConfigError,
    >)
        ensures
            res == spec_initial_config(
                capabilities.formats@,
                capabilities.composite_alphas@,
                capabilities.min_image_count,
                window,
            ),
    {
        if capabilities.formats.len() == 0 {
            return Err(ConfigError::NoFormat);
        }
        if capabilities.composite_alphas.len() == 0 {
            return Err(ConfigError::NoCompositeAlpha);
        }
        let min_image_count = if capabilities.min_image_count >= MIN_IMAGES {
            capabilities.min_image_count
        } else {
            MIN_IMAGES
        };
        Ok(
            SwapchainConfig {
                min_image_count,
                format: capabilities.formats[0],
                extent: window,
                composite_alpha: capabilities.composite_alphas[0],
                present_mode: PresentMode::Fifo,
            },
        )
    }

    /// The same configuration at another size.
    pub open spec fn spec_resized(self, window: Extent) -> SwapchainConfig {
        SwapchainConfig { extent: window, ..self }
    }

    /// The configuration of the swapchain that replaces this one when the
    /// window has the size `window`: only the extent changes.
    #[verifier::when_used_as_spec(spec_resized)]
    pub fn resized(self, window: Extent) -> (res: SwapchainConfig)
        ensures
            res == self.spec_resized(window),
    {
        SwapchainConfig { extent: window, ..self }
    }
}

/// One presentable image seen as something to draw into.
#[derive(Clone, Copy, Debug, PartialEq, Eq, Structural)]
pub struct DrawTarget {
    /// The driver's handle of the image.
    pub image: u64,
    pub extent: Extent,
    /// Color format code of the image.
    pub format: u32,
}

/// The target that stands for image `image` of a swapchain made from `config`.
pub open spec fn target_for(config: SwapchainConfig, image: u64) -> DrawTarget {
    DrawTarget { image, extent: config.extent, format: config.format }
}

/// The targets of a swapchain: one per image, in the images' order.
pub open spec fn spec_targets(config: SwapchainConfig, images: Seq<u64>) -> Seq<DrawTarget> {
    Seq::new(images.len(), |i: int| target_for(config, images[i]))
}

/// Builds one drawing target for each image of a fresh swapchain.
pub fn build_targets(config: SwapchainConfig, images: &Vec<u64>) -> (res: Vec<DrawTarget>)
    ensures
        res@ == spec_targets(config, images@),
{
    let mut targets: Vec<DrawTarget> = Vec::new();
    let mut i: usize = 0;
    while i < images.len()
        invariant
            i <= images@.len(),
            targets@ == spec_targets(config, images@.take(i as int)),
        decreases images@.len() - i,
    {
        targets.push(DrawTarget { image: images[i], extent: config.extent, format: config.format });
        i += 1;
    }
    targets
}

} // verus!
