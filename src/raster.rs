//! Raw RGBA rasters, and the image decoding and resizing they go through.

use vstd::prelude::*;

verus! {

/// Side of the square that an image written next to an encoder is fitted into.
pub const THUMBNAIL_SIZE: u32 = 72;

/// What a raster is to the contracts: width, height and RGBA bytes row by row.
pub type RasterModel = (u32, u32, Seq<u8>);

/// An image as four bytes (red, green, blue, alpha) per pixel, row by row.
#[derive(Debug, Clone, PartialEq, Eq)]
pub struct Raster {
    pub width: u32,
    pub height: u32,
    pub pixels: Vec<u8>,
}

impl Raster {
    pub open spec fn model(&self) -> RasterModel {
        (self.width, self.height, self.pixels@)
    }

    /// The buffer holds exactly one RGBA quadruple per pixel.
    pub open spec fn wf(&self) -> bool {
        self.pixels@.len() == 4 * (self.width as int) * (self.height as int)
    }

    /// An all-zero raster of the given size.
    pub fn blank(width: u32, height: u32) -> (r: Raster)
        requires
            4 * (width as int) * (height as int) <= usize::MAX,
        ensures
            r.model() == blank_model(width, height),
            r.wf(),
    {
        let w: usize = width as usize;
        let h: usize = height as usize;
        assert(4 * (w * h) <= usize::MAX) by (nonlinear_arith)
            requires
                4 * (width as int) * (height as int) <= usize::MAX,
                w == width,
                h == height,
        ;
        let n: usize = 4 * (w * h);
        let mut pixels: Vec<u8> = Vec::with_capacity(n);
        let mut i: usize = 0;
        while i < n
            invariant
                i <= n,
                pixels@ == Seq::new(i as nat, |k: int| 0u8),
            decreases n - i,
        {
            pixels.push(0u8);
            i = i + 1;
            assert(pixels@ =~= Seq::new(i as nat, |k: int| 0u8));
        }
        assert(4 * (width as int) * (height as int) == n) by (nonlinear_arith)
            requires
                n == 4 * (w * h),
                w == width,
                h == height,
        ;
        Raster { width, height, pixels }
    }
}

/// The model of an all-zero raster of the given size.
pub open spec fn blank_model(width: u32, height: u32) -> RasterModel {
    (width, height, Seq::new((4 * (width as int) * (height as int)) as nat, |k: int| 0u8))
}

/// What `image::load_from_memory` decodes from the bytes, as RGBA, or `None`
/// where the bytes are no image of a format it knows.
pub uninterp spec fn decoded_raster(bytes: Seq<u8>) -> Option<RasterModel>;

/// What `DynamicImage::resize` with the nearest-neighbour filter makes of the
/// raster (width, height, pixels) when fitted into (nwidth, nheight).
pub uninterp spec fn nearest_resized(
    width: u32,
    height: u32,
    pixels: Seq<u8>,
    nwidth: u32,
    nheight: u32,
) -> RasterModel;

/// Relies on image::load_from_memory (format guessed from the bytes, then
/// decoded) and on DynamicImage::to_rgba8 (four bytes a pixel, row by row).
#[verifier::external_body]
pub(crate) fn decode_image(bytes: &[u8]) -> (r: Option<Raster>)
    ensures
        match r {
            Some(img) => decoded_raster(bytes@) == Some(img.model()) && img.wf(),
            None => decoded_raster(bytes@) is None,
        },
{
    match image::load_from_memory(bytes) {
        Ok(img) => {
            let rgba = img.to_rgba8();
            Some(Raster { width: rgba.width(), height: rgba.height(), pixels: rgba.into_raw() })
        },
        Err(_) => None,
    }
}

/// Relies on image's DynamicImage::resize with FilterType::Nearest: the image
/// is scaled, aspect ratio kept, to the largest size that fits the bounds, so a
/// square image put into a square comes out with the square's size.
#[verifier::external_body]
pub(crate) fn resize_nearest(img: &Raster, nwidth: u32, nheight: u32) -> (r: Raster)
    requires
        img.wf(),
    ensures
        r.model() == nearest_resized(img.width, img.height, img.pixels@, nwidth, nheight),
        r.wf(),
        img.width == img.height && img.width > 0 && nwidth == nheight && nwidth > 0 ==> r.width
            == nwidth && r.height == nheight,
{
    let buffer = image::RgbaImage::from_raw(img.width, img.height, img.pixels.clone()).unwrap();
    let resized = image::DynamicImage::ImageRgba8(buffer).resize(
        nwidth,
        nheight,
        image::imageops::FilterType::Nearest,
    ).to_rgba8();
    Raster { width: resized.width(), height: resized.height(), pixels: resized.into_raw() }
}

} // verus!
