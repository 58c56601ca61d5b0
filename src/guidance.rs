//! The guidance field: a grayscale image of the track, bright along its
//! centre line and dark off it, that AI cars sample to find their way.
//!
//! It is built in stages from the track layer: one pixel per cell (255 on
//! track, 0 off it), upscaled by [`MINI_SCALE`] with nearest-pixel sampling,
//! blurred, then upscaled to [`FIELD_SCALE`] pixels per cell with a smooth
//! filter.
use vstd::prelude::*;
use crate::track::{TrackGrid, TrackMask};

verus! {

/// Pixels per track cell of the image that is blurred.
pub const MINI_SCALE: u32 = 8;

/// Pixels per track cell of the finished field.
pub const FIELD_SCALE: u32 = 128;

/// How an image is resampled when it is resized.
#[derive(Clone, Copy, Debug, PartialEq, Eq, Structural)]
pub enum Resampling {
    /// Each pixel copies the nearest source pixel.
    Nearest,
    /// Each pixel is a Gaussian-weighted mean of the source pixels near it.
    Gaussian,
}

/// The pixels, row by row, of a `width` by `height` grayscale image resized
/// to `new_width` by `new_height` pixels with `filter`.
pub uninterp spec fn resized(
    pixels: Seq<u8>,
    width: nat,
    height: nat,
    new_width: nat,
    new_height: nat,
    filter: Resampling,
) -> Seq<u8>;

/// Relies on `image::imageops::resize` on a grayscale image buffer: the result
/// is `new_width` by `new_height` pixels and depends on its arguments alone.
#[verifier::external_body]
fn resize_gray(
    pixels: &Vec<u8>,
    width: u32,
    height: u32,
    new_width: u32,
    new_height: u32,
    filter: Resampling,
) -> (r: Vec<u8>)
    requires
        width > 0,
        height > 0,
        new_width > 0,
        new_height > 0,
        pixels@.len() == width * height,
        width * new_height * 16 <= isize::MAX,
        new_width * new_height * 16 <= isize::MAX,
    ensures
        r@ == resized(pixels@, width as nat, height as nat, new_width as nat, new_height as nat, filter),
        r@.len() == new_width * new_height,
{
    let image = image::GrayImage::from_vec(width, height, pixels.clone()).unwrap();
    let filter = match filter {
        Resampling::Nearest => image::imageops::FilterType::Nearest,
        Resampling::Gaussian => image::imageops::FilterType::Gaussian,
    };
    image::imageops::resize(&image, new_width, new_height, filter).into_raw()
}

/// Pixel of the track image for a cell: white on track, black off it.
pub open spec fn track_pixel(on_track: bool) -> u8 {
    if on_track {
        255
    } else {
        0
    }
}

/// The track image: one pixel per cell, row by row.
pub open spec fn track_image_spec(grid: TrackGrid) -> Seq<u8> {
    Seq::new(grid.cells.len(), |i: int| track_pixel(grid.cells[i]))
}

/// One pixel per cell of `mask`, row by row: 255 on track, 0 off it.
pub fn track_image(mask: &TrackMask) -> (r: Vec<u8>)
    ensures
        r@ == track_image_spec(mask@),
        r@.len() == mask@.width * mask@.height,
{
    let cells = mask.cells();
    let mut out: Vec<u8> = Vec::with_capacity(cells.len());
    let mut i: usize = 0;
    while i < cells.len()
        invariant
            i <= cells@.len(),
            out@ == Seq::new(i as nat, |j: int| track_pixel(cells@[j])),
        decreases cells@.len() - i,
    {
        let p: u8 = if cells[i] {
            255
        } else {
            0
        };
        out.push(p);
        i = i + 1;
    }
    out
}

/// A track grid of `width` by `height` cells can have a field: it is not
/// empty, the field's sides fit in a `u32`, and the buffers that resampling
/// to the field's size allocates fit in memory.
pub open spec fn field_fits(width: nat, height: nat) -> bool {
    &&& width > 0
    &&& height > 0
    &&& width * FIELD_SCALE <= u32::MAX
    &&& height * FIELD_SCALE <= u32::MAX
    &&& (width * FIELD_SCALE) * (height * FIELD_SCALE) * 16 <= isize::MAX
}

/// The image that is blurred, for a track grid that fits.
pub open spec fn mini_map_spec(grid: TrackGrid) -> Seq<u8> {
    resized(
        track_image_spec(grid),
        grid.width,
        grid.height,
        (grid.width * MINI_SCALE) as nat,
        (grid.height * MINI_SCALE) as nat,
        Resampling::Nearest,
    )
}

/// Mathematical model of a guidance field: a `width` by `height` grayscale
/// image, row by row, whose centre lies on the world origin.
pub ghost struct FieldImage {
    pub width: nat,
    pub height: nat,
    pub pixels: Seq<u8>,
}

/// The intensity read at pixel column `px` and row `py` counted from the
/// bottom edge; the image's rows run from the top, and nothing is read
/// outside it.
pub open spec fn query_spec(f: FieldImage, px: int, py: int) -> i32 {
    if 0 < py < f.height && 0 <= px < f.width {
        f.pixels[(f.height - py) * f.width + px] as i32
    } else {
        0
    }
}

/// A guidance field, with its pixels held row by row.
pub struct GuidanceField {
    width: u32,
    height: u32,
    pixels: Vec<u8>,
}

impl View for GuidanceField {
    type V = FieldImage;

    closed spec fn view(&self) -> FieldImage {
        FieldImage { width: self.width as nat, height: self.height as nat, pixels: self.pixels@ }
    }
}

proof fn lemma_scaled_bounds(width: nat, height: nat, scale: nat)
    requires
        field_fits(width, height),
        0 < scale <= FIELD_SCALE,
    ensures
        (width * scale) * (height * scale) * 16 <= isize::MAX,
        width * (height * scale) * 16 <= isize::MAX,
        (width * MINI_SCALE) * (height * FIELD_SCALE) * 16 <= isize::MAX,
        width * scale > 0,
        height * scale > 0,
{
    assert(width * scale <= width * FIELD_SCALE) by (nonlinear_arith)
        requires
            scale <= FIELD_SCALE,
    ;
    assert(height * scale <= height * FIELD_SCALE) by (nonlinear_arith)
        requires
            scale <= FIELD_SCALE,
    ;
    assert(width <= width * MINI_SCALE && width * MINI_SCALE <= width * FIELD_SCALE)
        by (nonlinear_arith);
    assert((width * scale) * (height * scale) <= (width * FIELD_SCALE) * (height * FIELD_SCALE))
        by (nonlinear_arith)
        requires
            width * scale <= width * FIELD_SCALE,
            height * scale <= height * FIELD_SCALE,
    ;
    assert(width * (height * scale) <= (width * FIELD_SCALE) * (height * FIELD_SCALE))
        by (nonlinear_arith)
        requires
            width <= width * FIELD_SCALE,
            height * scale <= height * FIELD_SCALE,
    ;
    assert((width * MINI_SCALE) * (height * FIELD_SCALE) <= (width * FIELD_SCALE) * (height
        * FIELD_SCALE)) by (nonlinear_arith)
        requires
            width * MINI_SCALE <= width * FIELD_SCALE,
    ;
    assert(width * scale > 0 && height * scale > 0) by (nonlinear_arith)
        requires
            width > 0,
            height > 0,
            scale > 0,
    ;
}

impl GuidanceField {
    #[verifier::type_invariant]
    spec fn well_formed(self) -> bool {
        self.pixels@.len() == self.width * self.height
    }

    /// The track image of `mask` upscaled to [`MINI_SCALE`] pixels per cell
    /// with nearest-pixel sampling: the image that is blurred before
    /// [`GuidanceField::from_mini_map`]. `None` when the grid is empty or the
    /// finished field would be too large.
    pub fn mini_map(mask: &TrackMask) -> (r: Option<Vec<u8>>)
        ensures
            r is Some <==> field_fits(mask@.width, mask@.height),
            r matches Some(m) ==> m@ == mini_map_spec(mask@),
            r matches Some(m) ==> m@.len() == (mask@.width * MINI_SCALE) * (mask@.height
                * MINI_SCALE),
    {
        let (w, h) = (mask.width(), mask.height());
        if !Self::size_fits(w, h) {
            return None;
        }
        proof {
            lemma_scaled_bounds(w as nat, h as nat, MINI_SCALE as nat);
        }
        let image = track_image(mask);
        Some(resize_gray(&image, w, h, w * MINI_SCALE, h * MINI_SCALE, Resampling::Nearest))
    }

    fn size_fits(width: u32, height: u32) -> (r: bool)
        ensures
            r == field_fits(width as nat, height as nat),
    {
        if width == 0 || height == 0 || width > u32::MAX / FIELD_SCALE || height > u32::MAX
            / FIELD_SCALE {
            return false;
        }
        let (fw, fh) = ((width * FIELD_SCALE) as u64, (height * FIELD_SCALE) as u64);
        proof {
            assert(fw * fh <= u64::MAX) by (nonlinear_arith)
                requires
                    fw <= u32::MAX,
                    fh <= u32::MAX,
            ;
        }
        let area = fw * fh;
        area <= (isize::MAX as u64) / 16
    }

    /// The field of a track grid of `width` by `height` cells, made by
    /// upscaling `blurred`, its mini map after blurring, to [`FIELD_SCALE`]
    /// pixels per cell with Gaussian resampling. `None` when the grid is
    /// empty or too large, or `blurred` does not hold one mini map's pixels.
    pub fn from_mini_map(width: u32, height: u32, blurred: &Vec<u8>) -> (r: Option<GuidanceField>)
        ensures
            r is Some <==> field_fits(width as nat, height as nat)
                && blurred@.len() == (width * MINI_SCALE) * (height * MINI_SCALE),
            r matches Some(f) ==> f@ == (FieldImage {
                width: (width * FIELD_SCALE) as nat,
                height: (height * FIELD_SCALE) as nat,
                pixels: resized(
                    blurred@,
                    (width * MINI_SCALE) as nat,
                    (height * MINI_SCALE) as nat,
                    (width * FIELD_SCALE) as nat,
                    (height * FIELD_SCALE) as nat,
                    Resampling::Gaussian,
                ),
            }),
    {
        if !Self::size_fits(width, height) {
            return None;
        }
        proof {
            lemma_scaled_bounds(width as nat, height as nat, MINI_SCALE as nat);
            lemma_scaled_bounds(width as nat, height as nat, FIELD_SCALE as nat);
        }
        let (mw, mh) = (width * MINI_SCALE, height * MINI_SCALE);
        if blurred.len() as u64 != mw as u64 * mh as u64 {
            return None;
        }
        let (fw, fh) = (width * FIELD_SCALE, height * FIELD_SCALE);
        let pixels = resize_gray(blurred, mw, mh, fw, fh, Resampling::Gaussian);
        Some(GuidanceField { width: fw, height: fh, pixels })
    }

    /// Width of the field, in pixels.
    pub fn width(&self) -> (r: u32)
        ensures
            r == self@.width,
    {
        self.width
    }

    /// Height of the field, in pixels.
    pub fn height(&self) -> (r: u32)
        ensures
            r == self@.height,
    {
        self.height
    }

    /// Intensity at pixel column `px` and at row `py` counted from the bottom
    /// edge (world +y is up, the image's rows run down). Any coordinate is
    /// accepted; outside the image the intensity is 0.
    pub fn get(&self, px: i64, py: i64) -> (r: i32)
        ensures
            r == query_spec(self@, px as int, py as int),
            0 <= r <= 255,
            !(0 <= py < self@.height && 0 <= px < self@.width) ==> r == 0,
    {
        proof {
            use_type_invariant(self);
        }
        if 0 < py && py < self.height as i64 && 0 <= px && px < self.width as i64 {
            let (xu, yu, w, n) = (
                px as usize,
                (self.height as i64 - py) as usize,
                self.width as usize,
                self.pixels.len(),
            );
            proof {
                assert(yu * w + xu < n && yu * w <= yu * w + xu) by (nonlinear_arith)
                    requires
                        xu < w,
                        yu < self.height,
                        w == self.width,
                        n == self.width * self.height,
                ;
            }
            return self.pixels[yu * w + xu] as i32;
        }
        0
    }
}

} // verus!
