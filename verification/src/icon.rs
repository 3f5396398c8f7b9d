//! The window icon: an image file decoded to the 32-bit RGBA pixels that a
//! window system takes.

use vstd::prelude::*;

verus! {

/// Bytes per pixel.
pub const PIXEL_SIZE: usize = 4;

/// Why some bytes are no icon.
#[derive(Clone, Copy, Debug, PartialEq, Eq, Structural)]
pub enum IconError {
    /// The bytes are no image in a format that can be decoded.
    Undecodable,
    /// The number of bytes is no multiple of four, so they are no pixels.
    ByteCountNotDivisibleBy4 { byte_count: usize },
    /// The width times the height is more than a 32-bit number holds.
    DimensionsTooLarge { width: u32, height: u32 },
    /// The number of pixels is not the width times the height.
    DimensionsVsPixelCount { width: u32, height: u32, pixel_count: usize },
}

/// What pixels and dimensions make, or why they make no icon.
pub open spec fn spec_icon_check(byte_count: nat, width: u32, height: u32) -> Option<IconError> {
    if byte_count % (PIXEL_SIZE as nat) != 0 {
        Some(IconError::ByteCountNotDivisibleBy4 { byte_count: byte_count as usize })
    } else if width * height > u32::MAX {
        Some(IconError::DimensionsTooLarge { width, height })
    } else if byte_count / (PIXEL_SIZE as nat) != width * height {
        Some(
            IconError::DimensionsVsPixelCount {
                width,
                height,
                pixel_count: (byte_count / (PIXEL_SIZE as nat)) as usize,
            },
        )
    } else {
        None
    }
}

/// `error` is one that pixels and dimensions earn: it tells truly what was
/// wrong with them.
pub open spec fn is_refusal(error: IconError) -> bool {
    match error {
        IconError::Undecodable => false,
        IconError::ByteCountNotDivisibleBy4 { byte_count } => byte_count % PIXEL_SIZE != 0,
        IconError::DimensionsTooLarge { width, height } => width * height > u32::MAX,
        IconError::DimensionsVsPixelCount { width, height, pixel_count } => width * height
            <= u32::MAX && pixel_count != width * height,
    }
}

/// An icon: `width` times `height` pixels of four bytes each, row by row.
#[derive(Debug, PartialEq, Eq)]
pub struct IconImage {
    rgba: Vec<u8>,
    width: u32,
    height: u32,
}

impl IconImage {
    #[verifier::type_invariant]
    spec fn well_formed(self) -> bool {
        spec_icon_check(self.rgba@.len(), self.width, self.height) is None
    }

    /// The pixels, four bytes each.
    pub closed spec fn spec_rgba(self) -> Seq<u8> {
        self.rgba@
    }

    /// The width in pixels.
    pub closed spec fn spec_width(self) -> u32 {
        self.width
    }

    /// The height in pixels.
    pub closed spec fn spec_height(self) -> u32 {
        self.height
    }

    /// Makes an icon of pixels and dimensions, if they agree: the bytes are
    /// a whole number of pixels, and as many as the dimensions say.
    pub fn from_rgba(rgba: Vec<u8>, width: u32, height: u32) -> (res: Result<IconImage, IconError>)
        ensures
            match res {
                Ok(icon) => {
                    &&& spec_icon_check(rgba@.len(), width, height) is None
                    &&& icon.spec_rgba() == rgba@
                    &&& icon.spec_width() == width
                    &&& icon.spec_height() == height
                },
                Err(error) => spec_icon_check(rgba@.len(), width, height) == Some(error),
            },
            res matches Err(error) ==> is_refusal(error),
    {
        let byte_count = rgba.len();
        if byte_count % PIXEL_SIZE != 0 {
            return Err(IconError::ByteCountNotDivisibleBy4 { byte_count });
        }
        assert(width * height <= 0xffff_ffff * 0xffff_ffff) by (nonlinear_arith)
            requires
                width <= 0xffff_ffff,
                height <= 0xffff_ffff,
        ;
        let area: u64 = width as u64 * height as u64;
        if area > u32::MAX as u64 {
            return Err(IconError::DimensionsTooLarge { width, height });
        }
        let pixel_count = byte_count / PIXEL_SIZE;
        if pixel_count as u64 != area {
            return Err(IconError::DimensionsVsPixelCount { width, height, pixel_count });
        }
        Ok(IconImage { rgba, width, height })
    }

    /// The pixels: four bytes for each of `width` times `height`.
    pub fn rgba(&self) -> (res: &Vec<u8>)
        ensures
            res@ == self.spec_rgba(),
            res@.len() == PIXEL_SIZE * (self.spec_width() * self.spec_height()),
            self.spec_width() * self.spec_height() <= u32::MAX,
    {
        proof {
            use_type_invariant(self);
        }
        &self.rgba
    }

    /// The width in pixels.
    pub fn width(&self) -> (res: u32)
        ensures
            res == self.spec_width(),
    {
        self.width
    }

    /// The height in pixels.
    pub fn height(&self) -> (res: u32)
        ensures
            res == self.spec_height(),
    {
        self.height
    }
}

/// `image::ImageError`, the decoder's error, carried through unopened.
#[verifier::external_type_specification]
#[verifier::external_body]
pub struct ExImageError(image::ImageError);

/// Calls `image::load_from_memory` on the bytes and converts what it decodes
/// to 8-bit RGBA with `DynamicImage::into_rgba8`, handing out the buffer
/// with `ImageBuffer::into_raw` and the size with `ImageBuffer::dimensions`.
/// Nothing is claimed of the result: which formats are recognized depends
/// on what the process has registered with the decoder.
#[verifier::external_body]
fn decode_rgba8(bytes: &[u8]) -> (res: Result<(Vec<u8>, u32, u32), image::ImageError>) {
    let decoded = image::load_from_memory(bytes)?.into_rgba8();
    let (width, height) = decoded.dimensions();
    Ok((decoded.into_raw(), width, height))
}

/// Turns what the decoder handed back into an icon: decoded pixels go
/// through `IconImage::from_rgba`, a decoder's error becomes `Undecodable`.
pub fn icon_from_decoded(decoded: Result<(Vec<u8>, u32, u32), image::ImageError>) -> (res: Result<
    IconImage,
    IconError,
>)
    ensures
        match decoded {
            Ok((rgba, width, height)) => match res {
                Ok(icon) => {
                    &&& spec_icon_check(rgba@.len(), width, height) is None
                    &&& icon.spec_rgba() == rgba@
                    &&& icon.spec_width() == width
                    &&& icon.spec_height() == height
                },
                Err(error) => spec_icon_check(rgba@.len(), width, height) == Some(error),
            },
            Err(_) => res == Err::<IconImage, IconError>(IconError::Undecodable),
        },
        res matches Err(error) ==> error is Undecodable || is_refusal(error),
{
    match decoded {
        Ok((rgba, width, height)) => IconImage::from_rgba(rgba, width, height),
        Err(_) => Err(IconError::Undecodable),
    }
}

/// Decodes an image file held in memory to an icon: the bytes go to the
/// decoder, and what it hands back goes through `icon_from_decoded`. What
/// the decoder makes of the bytes is its own affair. Whatever it hands
/// back, an icon comes out only with as many pixels as its dimensions say,
/// and an error other than `Undecodable` tells truly how the decoded pixels
/// and dimensions disagree.
pub fn load_icon(bytes: &[u8]) -> (res: Result<IconImage, IconError>)
    ensures
        match res {
            Ok(icon) => {
                &&& icon.spec_rgba().len() == PIXEL_SIZE * (icon.spec_width() * icon.spec_height())
                &&& icon.spec_width() * icon.spec_height() <= u32::MAX
            },
            Err(error) => error is Undecodable || is_refusal(error),
        },
{
    match icon_from_decoded(decode_rgba8(bytes)) {
        Ok(icon) => {
            proof {
                use_type_invariant(&icon);
            }
            Ok(icon)
        },
        Err(error) => Err(error),
    }
}

} // verus!
