//! Trusted interface to the `image` crate's pixel buffers.
//!
//! Heat rasters live in an `image::GrayImage` (one byte per pixel,
//! row-major) and rendering composites onto an `image::RgbaImage` (four
//! bytes per pixel, row-major R, G, B, A).  The two buffer types are held in
//! opaque wrappers here; their contents are named by the spec functions
//! below, and the trusted functions state what each call of the `image`
//! crate does to them.
use vstd::prelude::*;

use crate::config::ResizeFilter;

verus! {

/// An `image::GrayImage`: a single-channel 8-bit pixel buffer.
#[verifier::external_body]
pub struct GrayBuf {
    inner: image::GrayImage,
}

/// An `image::RgbaImage`: a four-channel 8-bit pixel buffer.
#[verifier::external_body]
pub struct RgbaBuf {
    inner: image::RgbaImage,
}

/// The bytes a gray image holds, row-major, one per pixel.
pub uninterp spec fn gray_px(img: GrayBuf) -> Seq<u8>;

/// The width a gray image was created with.
pub uninterp spec fn gray_w(img: GrayBuf) -> u32;

/// The height a gray image was created with.
pub uninterp spec fn gray_h(img: GrayBuf) -> u32;

/// The numeric code of a resize filter, as the resized-contents name takes
/// it.
pub open spec fn filter_code(f: ResizeFilter) -> int {
    match f {
        ResizeFilter::Bilinear => 0,
        ResizeFilter::CatmullRom => 1,
        ResizeFilter::Lanczos3 => 2,
        ResizeFilter::Nearest => 3,
    }
}

/// What `image::imageops::resize` returns for a gray image: a
/// `w_out` by `h_out` buffer resampled from the input buffer with the given
/// filter.  The result depends on the buffer, the dimensions and the filter
/// alone; its sampling arithmetic is fixed IEEE operations plus, for some
/// filter kernels, the platform's math library, so it is one function
/// within any one build of the crate.
pub uninterp spec fn gray_resized(
    input: Seq<u8>,
    w_in: int,
    h_in: int,
    w_out: int,
    h_out: int,
    filter: int,
) -> Seq<u8>;

/// The bytes an RGBA image holds, row-major, four per pixel.
pub uninterp spec fn rgba_px(img: RgbaBuf) -> Seq<u8>;

/// The width an RGBA image was created with.
pub uninterp spec fn rgba_w(img: RgbaBuf) -> u32;

/// The height an RGBA image was created with.
pub uninterp spec fn rgba_h(img: RgbaBuf) -> u32;

/// What `image::imageops::overlay` at offset (0, 0) leaves in the bottom
/// buffer of two images of dimensions `w` by `h`: every top pixel
/// alpha-blended over the bottom pixel at the same position.  The result is a
/// function of the dimensions and the two buffers alone.
pub uninterp spec fn rgba_over(w: int, h: int, bottom: Seq<u8>, top: Seq<u8>) -> Seq<u8>;

impl GrayBuf {
    /// The held bytes, row-major.
    pub fn to_vec(&self) -> (r: Vec<u8>)
        ensures
            r@ == gray_px(*self),
    {
        gray_to_vec(self)
    }
}

impl RgbaBuf {
    /// A fresh, fully transparent canvas: every byte zero.  Dimensions
    /// whose buffer would not fit in memory are a
    /// `BufferConstructionFailure`.
    pub fn new(width: u32, height: u32) -> (r: Result<RgbaBuf, crate::Error>)
        ensures
            match r {
                Ok(c) => {
                    &&& rgba_w(c) == width
                    &&& rgba_h(c) == height
                    &&& rgba_px(c) == Seq::new((4 * width * height) as nat, |k: int| 0u8)
                },
                Err(e) => {
                    &&& e == crate::Error::BufferConstructionFailure
                    &&& 4 * width * height > usize::MAX
                },
            },
    {
        proof {
            assert(4 * (width as int) * (height as int) <= 4 * 0xffff_ffff * 0xffff_ffff)
                by (nonlinear_arith)
                requires
                    width <= 0xffff_ffffu32,
                    height <= 0xffff_ffffu32;
        }
        let n128: u128 = 4u128 * (width as u128) * (height as u128);
        if n128 > usize::MAX as u128 {
            return Err(crate::Error::BufferConstructionFailure);
        }
        let n: usize = n128 as usize;
        let mut buf: Vec<u8> = Vec::new();
        let mut i: usize = 0;
        while i < n
            invariant
                0 <= i <= n,
                buf@.len() == i,
                forall|k: int| 0 <= k < i ==> buf@[k] == 0u8,
            decreases n - i,
        {
            buf.push(0);
            i += 1;
        }
        proof {
            assert(buf@ =~= Seq::new((4 * width * height) as nat, |k: int| 0u8));
        }
        match rgba_from_raw(width, height, buf) {
            Some(c) => Ok(c),
            None => Err(crate::Error::BufferConstructionFailure),
        }
    }

    /// A canvas taking ownership of existing RGBA bytes, row-major, four
    /// per pixel.  Any other buffer length is a
    /// `BufferConstructionFailure`.
    pub fn from_bytes(width: u32, height: u32, data: Vec<u8>) -> (r: Result<RgbaBuf, crate::Error>)
        ensures
            match r {
                Ok(c) => {
                    &&& data@.len() == 4 * width * height
                    &&& rgba_w(c) == width
                    &&& rgba_h(c) == height
                    &&& rgba_px(c) == data@
                },
                Err(e) => {
                    &&& e == crate::Error::BufferConstructionFailure
                    &&& data@.len() != 4 * width * height
                },
            },
    {
        proof {
            assert(4 * (width as int) * (height as int) <= 4 * 0xffff_ffff * 0xffff_ffff)
                by (nonlinear_arith)
                requires
                    width <= 0xffff_ffffu32,
                    height <= 0xffff_ffffu32;
        }
        let expected: u128 = 4u128 * (width as u128) * (height as u128);
        if (data.len() as u128) != expected {
            return Err(crate::Error::BufferConstructionFailure);
        }
        match rgba_from_raw(width, height, data) {
            Some(c) => Ok(c),
            None => Err(crate::Error::BufferConstructionFailure),
        }
    }

    /// The held bytes, row-major R, G, B, A.
    pub fn to_vec(&self) -> (r: Vec<u8>)
        ensures
            r@ == rgba_px(*self),
    {
        rgba_to_vec(self)
    }

    /// The width and height the canvas was created with.
    pub fn dimensions(&self) -> (r: (u32, u32))
        ensures
            r.0 == rgba_w(*self),
            r.1 == rgba_h(*self),
    {
        rgba_dims(self)
    }
}

/// Relies on `image::ImageBuffer::from_raw`: a buffer of exactly
/// `width * height` bytes yields `Some` of a gray image holding that buffer.
#[verifier::external_body]
pub(crate) fn gray_from_raw(width: u32, height: u32, data: Vec<u8>) -> (r: Option<GrayBuf>)
    requires
        data@.len() == width * height,
    ensures
        r is Some,
        gray_px(r->0) == data@,
        gray_w(r->0) == width,
        gray_h(r->0) == height,
{
    image::GrayImage::from_raw(width, height, data).map(|inner| GrayBuf { inner })
}

/// Relies on `image::ImageBuffer`'s deref to its raw container: `to_vec`
/// returns the held bytes, row-major.
#[verifier::external_body]
pub(crate) fn gray_to_vec(img: &GrayBuf) -> (r: Vec<u8>)
    ensures
        r@ == gray_px(*img),
{
    img.inner.to_vec()
}

/// Relies on `Clone` for `image::ImageBuffer`: the copy holds the same bytes.
#[verifier::external_body]
pub(crate) fn gray_clone(img: &GrayBuf) -> (r: GrayBuf)
    ensures
        gray_px(r) == gray_px(*img),
        gray_w(r) == gray_w(*img),
        gray_h(r) == gray_h(*img),
{
    GrayBuf { inner: img.inner.clone() }
}

/// Relies on `image::imageops::resize`: it resamples the input into a new
/// `width` by `height` buffer with the given filter, reading only the input
/// buffer and its dimensions.  The dimensions must describe a buffer that
/// fits in memory, as the call allocates it up front.
#[verifier::external_body]
pub(crate) fn gray_resize(img: &GrayBuf, width: u32, height: u32, filter: ResizeFilter) -> (r:
    GrayBuf)
    requires
        width * height <= usize::MAX,
    ensures
        gray_px(r) == gray_resized(
            gray_px(*img),
            gray_w(*img) as int,
            gray_h(*img) as int,
            width as int,
            height as int,
            filter_code(filter),
        ),
        gray_px(r).len() == width * height,
        gray_w(r) == width,
        gray_h(r) == height,
{
    let ft = match filter {
        ResizeFilter::Bilinear => image::imageops::FilterType::Triangle,
        ResizeFilter::CatmullRom => image::imageops::FilterType::CatmullRom,
        ResizeFilter::Lanczos3 => image::imageops::FilterType::Lanczos3,
        ResizeFilter::Nearest => image::imageops::FilterType::Nearest,
    };
    GrayBuf { inner: image::imageops::resize(&img.inner, width, height, ft) }
}

/// Relies on `image::ImageBuffer::from_raw`, as `gray_from_raw`; an RGBA
/// image holds four bytes per pixel.
#[verifier::external_body]
pub(crate) fn rgba_from_raw(width: u32, height: u32, data: Vec<u8>) -> (r: Option<RgbaBuf>)
    requires
        data@.len() == 4 * width * height,
    ensures
        r is Some,
        rgba_px(r->0) == data@,
        rgba_w(r->0) == width,
        rgba_h(r->0) == height,
{
    image::RgbaImage::from_raw(width, height, data).map(|inner| RgbaBuf { inner })
}

/// Relies on `image::ImageBuffer::dimensions`: the width and height the
/// image was created with.
#[verifier::external_body]
pub(crate) fn rgba_dims(img: &RgbaBuf) -> (r: (u32, u32))
    ensures
        r.0 == rgba_w(*img),
        r.1 == rgba_h(*img),
{
    img.inner.dimensions()
}

/// Relies on `image::ImageBuffer`'s deref to its raw container, as
/// `gray_to_vec`.
#[verifier::external_body]
pub(crate) fn rgba_to_vec(img: &RgbaBuf) -> (r: Vec<u8>)
    ensures
        r@ == rgba_px(*img),
{
    img.inner.to_vec()
}

/// Relies on `image::imageops::overlay` at offset (0, 0): it alpha-blends
/// each pixel of `top` over the pixel of `bottom` at the same position.  For
/// equal dimensions the result depends only on the dimensions and the two
/// buffers, and the dimensions are untouched.  Two per-pixel facts of its
/// blend are stated exactly as the source has them: a fully transparent top
/// pixel leaves the bottom pixel's four bytes unchanged, and a fully opaque
/// top pixel replaces them with its own.
#[verifier::external_body]
pub(crate) fn rgba_overlay(bottom: &mut RgbaBuf, top: &RgbaBuf)
    requires
        rgba_w(*old(bottom)) == rgba_w(*top),
        rgba_h(*old(bottom)) == rgba_h(*top),
    ensures
        rgba_px(*final(bottom)) == rgba_over(
            rgba_w(*old(bottom)) as int,
            rgba_h(*old(bottom)) as int,
            rgba_px(*old(bottom)),
            rgba_px(*top),
        ),
        rgba_px(*final(bottom)).len() == rgba_px(*old(bottom)).len(),
        rgba_w(*final(bottom)) == rgba_w(*old(bottom)),
        rgba_h(*final(bottom)) == rgba_h(*old(bottom)),
        forall|p: int, c: int|
            0 <= p < rgba_w(*old(bottom)) * rgba_h(*old(bottom)) && 0 <= c < 4 && rgba_px(
                *top,
            )[4 * p + 3] == 0 ==> #[trigger] rgba_px(*final(bottom))[4 * p + c] == rgba_px(
                *old(bottom),
            )[4 * p + c],
        forall|p: int, c: int|
            0 <= p < rgba_w(*old(bottom)) * rgba_h(*old(bottom)) && 0 <= c < 4 && rgba_px(
                *top,
            )[4 * p + 3] == 255 ==> #[trigger] rgba_px(*final(bottom))[4 * p + c] == rgba_px(
                *top,
            )[4 * p + c],
{
    image::imageops::overlay(&mut bottom.inner, &top.inner, 0, 0);
}

} // verus!
