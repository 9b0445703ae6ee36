//! Decoded RGBA images as plain pixel buffers.
//!
//! A buffer is a rectangular grid of 8-bit RGBA pixels stored row-major, four
//! bytes per pixel, with the alpha channel in the fourth byte of each pixel.

use vstd::prelude::*;

verus! {

/// Index of the alpha byte inside one RGBA pixel.
pub const ALPHA_CHANNEL: usize = 3;

/// A decoded image: `width * height` RGBA pixels, four bytes each.
pub struct RgbaBuffer {
    pub width: u32,
    pub height: u32,
    pub data: Vec<u8>,
}

/// `d` with the alpha byte of every pixel replaced by `alpha` and all other
/// bytes unchanged.
pub open spec fn with_alpha(d: Seq<u8>, alpha: u8) -> Seq<u8> {
    Seq::new(d.len(), |i: int| if i % 4 == 3 { alpha } else { d[i] })
}

/// The pixel grid produced by alpha-blending the top image onto the bottom
/// one at origin (0, 0), over the overlapping region.
pub uninterp spec fn overlay_of(
    bottom_width: int,
    bottom_height: int,
    bottom_data: Seq<u8>,
    top_width: int,
    top_height: int,
    top_data: Seq<u8>,
) -> Seq<u8>;

impl RgbaBuffer {
    /// The buffer holds exactly four bytes for each of its pixels.
    pub open spec fn wf(self) -> bool {
        self.data@.len() == 4 * (self.width as int) * (self.height as int)
    }

    /// An image with no pixels.
    pub fn empty() -> (r: RgbaBuffer)
        ensures
            r.wf(),
            r.width == 0,
            r.height == 0,
            r.data@ == Seq::<u8>::empty(),
    {
        RgbaBuffer { width: 0, height: 0, data: Vec::new() }
    }

    /// An independent buffer holding the same pixels.
    pub fn duplicate(&self) -> (r: RgbaBuffer)
        ensures
            r.width == self.width,
            r.height == self.height,
            r.data@ == self.data@,
    {
        let data = self.data.clone();
        proof {
            assert(data@ =~= self.data@);
        }
        RgbaBuffer { width: self.width, height: self.height, data }
    }
}

/// Relies on `image::imageops::overlay`: it blends the top image onto the
/// bottom one at offset (0, 0), in place, so the result keeps the bottom
/// image's dimensions and depends on the two pixel grids alone.
#[verifier::external_body]
pub(crate) fn overlay_images(bottom: &RgbaBuffer, top: &RgbaBuffer) -> (r: RgbaBuffer)
    requires
        bottom.wf(),
        top.wf(),
    ensures
        r.wf(),
        r.width == bottom.width,
        r.height == bottom.height,
        r.data@ == overlay_of(
            bottom.width as int,
            bottom.height as int,
            bottom.data@,
            top.width as int,
            top.height as int,
            top.data@,
        ),
{
    let mut base: image::RgbaImage =
        image::RgbaImage::from_raw(bottom.width, bottom.height, bottom.data.clone()).unwrap();
    let top_image: image::RgbaImage =
        image::RgbaImage::from_raw(top.width, top.height, top.data.clone()).unwrap();
    image::imageops::overlay(&mut base, &top_image, 0, 0);
    RgbaBuffer { width: bottom.width, height: bottom.height, data: base.into_raw() }
}

} // verus!
