//! Pixel extents of windows and presentable images.

use vstd::prelude::*;

verus! {

/// A size in physical pixels.
#[derive(Clone, Copy, Debug, PartialEq, Eq, Structural)]
pub struct Extent {
    pub width: u32,
    pub height: u32,
}

impl Extent {
    /// True when the extent covers no pixel, as for a minimized window.
    pub open spec fn spec_is_empty(self) -> bool {
        self.width == 0 || self.height == 0
    }

    /// Builds an extent from a width and a height.
    pub fn new(width: u32, height: u32) -> (res: Extent)
        ensures
            res.width == width,
            res.height == height,
    {
        Extent { width, height }
    }

    /// Tells whether the extent covers no pixel.
    #[verifier::when_used_as_spec(spec_is_empty)]
    pub fn is_empty(self) -> (res: bool)
        ensures
            res == self.spec_is_empty(),
    {
        self.width == 0 || self.height == 0
    }
}

} // verus!
