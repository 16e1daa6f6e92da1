use vstd::prelude::*;
use crate::errors::DrawError;

verus! {

/// An RGBA raster held as plain values: pixel dimensions and the raw
/// bytes, four per pixel, rows top to bottom.
pub struct Raster {
    pub width: u32,
    pub height: u32,
    pub pixels: Vec<u8>,
}

impl Raster {
    /// The byte vector holds exactly four bytes for every pixel.
    pub open spec fn wf(self) -> bool {
        self.pixels@.len() == 4 * self.width * self.height
    }
}

/// Largest dimension, of source or target, for which the fill below is
/// known to return exactly the requested size.
pub const DIM_EXACT_LIMIT: u32 = 32768;

/// Relies on image::DynamicImage::resize_to_fill (Lanczos3 filter) and
/// DynamicImage::into_rgba8: the returned buffer always holds exactly four
/// bytes per pixel of its own dimensions; and when source and target
/// dimensions all lie between 1 and DIM_EXACT_LIMIT, the scale-then-crop
/// pipeline returns exactly the requested dimensions.
#[verifier::external_body]
fn fill_raster(src: &Raster, width: u32, height: u32) -> (r: Raster)
    requires
        src.wf(),
        1 <= src.width,
        1 <= src.height,
    ensures
        r.wf(),
        (src.width <= DIM_EXACT_LIMIT && src.height <= DIM_EXACT_LIMIT && 1 <= width && width
            <= DIM_EXACT_LIMIT && 1 <= height && height <= DIM_EXACT_LIMIT) ==> (r.width == width
            && r.height == height),
{
    let buf: image::RgbaImage =
        image::ImageBuffer::from_raw(src.width, src.height, src.pixels.clone())
            .expect("caller checked four bytes per pixel");
    let out = image::DynamicImage::ImageRgba8(buf)
        .resize_to_fill(width, height, image::imageops::FilterType::Lanczos3)
        .into_rgba8();
    let (w, h) = out.dimensions();
    Raster { width: w, height: h, pixels: out.into_raw() }
}

/// The resize-and-fill step: scale the source to cover the target and crop
/// the overflowing axis, never letterboxing, so a successful frame has
/// exactly the requested dimensions. A source that is empty or does not
/// hold four bytes per pixel is rejected; a fill that misses the requested
/// size is reported rather than submitted. For sources and targets with
/// all dimensions between 1 and DIM_EXACT_LIMIT, success is guaranteed.
pub fn render_frame(src: &Raster, width: u32, height: u32) -> (r: Result<Raster, DrawError>)
    ensures
        (match r {
            Ok(f) => f.wf() && f.width == width && f.height == height,
            Err(e) => e == DrawError::MalformedSource || e == DrawError::MalformedFrame,
        }),
        (!src.wf() || src.width == 0 || src.height == 0) <==> r == Err::<Raster, DrawError>(
            DrawError::MalformedSource,
        ),
        (src.wf() && 1 <= src.width && src.width <= DIM_EXACT_LIMIT && 1 <= src.height
            && src.height <= DIM_EXACT_LIMIT && 1 <= width && width <= DIM_EXACT_LIMIT && 1
            <= height && height <= DIM_EXACT_LIMIT) ==> r is Ok,
{
    proof {
        assert((4 * (src.width as u128)) * (src.height as u128) < 0x100000000000000000 as u128)
            by (nonlinear_arith)
            requires
                src.width as u128 <= 0xffffffff as u128,
                src.height as u128 <= 0xffffffff as u128,
        ;
    }
    let expected: u128 = 4u128 * (src.width as u128) * (src.height as u128);
    if src.width == 0 || src.height == 0 || (src.pixels.len() as u128) != expected {
        return Err(DrawError::MalformedSource);
    }
    let f = fill_raster(src, width, height);
    if f.width != width || f.height != height {
        return Err(DrawError::MalformedFrame);
    }
    Ok(f)
}

} // verus!
