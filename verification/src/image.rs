//! In-memory images as plain pixel grids.
//!
//! A [`RawImage`] stores one 16-bit value per pixel in row-major order, the
//! format in which the panels of this family take their frame data.  A
//! [`PositionedImage`] pairs an image with the point at which it should be
//! drawn on a target surface.

use vstd::prelude::*;
use vstd::string::StringExecFns;

use crate::errors::RPiError;
use crate::errors::RPiResult;

verus! {

/// The largest width or height an image may have.  The panels this library
/// drives address their pixels with 16-bit coordinates.
pub const MAX_DIMENSION: u32 = 65535;

/// An image that owns its pixel data: one 16-bit raw colour value per pixel,
/// row-major, `width * height` entries in all.
#[derive(Debug, Clone)]
pub struct RawImage {
    pub pixels: Vec<u16>,
    pub width: u32,
    pub height: u32,
}

impl RawImage {
    /// Well-formedness: the pixel buffer matches the declared size, and both
    /// dimensions fit the panels' 16-bit coordinate space.
    pub open spec fn wf(self) -> bool {
        &&& self.pixels@.len() == self.width * self.height
        &&& self.width <= MAX_DIMENSION
        &&& self.height <= MAX_DIMENSION
    }

    /// The pixel in column `x` of row `y`.
    pub open spec fn pix(self, x: int, y: int) -> u16 {
        self.pixels@[y * self.width + x]
    }

    /// Build an image from an owned pixel buffer, rejecting a buffer whose
    /// length does not match the declared size and dimensions beyond
    /// [`MAX_DIMENSION`].
    pub fn from_pixels(pixels: Vec<u16>, width: u32, height: u32) -> (r: RPiResult<RawImage>)
        ensures
            r is Ok <==> (pixels@.len() == width * height && width <= MAX_DIMENSION
                && height <= MAX_DIMENSION),
            r matches Ok(img) ==> img == (RawImage { pixels, width, height }),
    {
        if width > MAX_DIMENSION || height > MAX_DIMENSION {
            return Err(
                RPiError::InvalidInput(
                    String::from_str("image size"),
                    String::from_str("width and height must be at most 65535"),
                ),
            );
        }
        proof {
            vstd::arithmetic::mul::lemma_mul_upper_bound(width as int, 65535, height as int, 65535);
        }
        let expected: u64 = (width as u64) * (height as u64);
        if (pixels.len() as u64) != expected {
            return Err(
                RPiError::InvalidInput(
                    String::from_str("image pixels"),
                    String::from_str("length must equal width times height"),
                ),
            );
        }
        Ok(RawImage { pixels, width, height })
    }

    /// An owned copy of the image.
    pub fn duplicate(&self) -> (r: RawImage)
        ensures
            same_image(r, *self),
    {
        let count: usize = self.pixels.len();
        let mut pixels: Vec<u16> = Vec::new();
        let mut k: usize = 0;
        while k < count
            invariant
                count == self.pixels@.len(),
                k <= count,
                pixels@.len() == k,
                forall|i: int| 0 <= i < k ==> pixels@[i] == self.pixels@[i],
            decreases count - k,
        {
            pixels.push(self.pixels[k]);
            k = k + 1;
        }
        proof {
            assert(pixels@ =~= self.pixels@);
        }
        RawImage { pixels, width: self.width, height: self.height }
    }

    /// The size of the image as `(width, height)`.
    pub fn size(&self) -> (r: (u32, u32))
        ensures
            r.0 == self.width,
            r.1 == self.height,
    {
        (self.width, self.height)
    }
}

/// The two images hold the same picture: the same size and the same pixels.
pub open spec fn same_image(a: RawImage, b: RawImage) -> bool {
    &&& a.pixels@ == b.pixels@
    &&& a.width == b.width
    &&& a.height == b.height
}

/// An image together with the point on the target surface at which it is to
/// be drawn.
#[derive(Debug, Clone)]
pub struct PositionedImage {
    pub image: RawImage,
    pub x: i32,
    pub y: i32,
}

/// Place a raw image at the given position, ready for drawing.
pub fn image_from_raw(raw: RawImage, x: i32, y: i32) -> (r: PositionedImage)
    ensures
        r.image == raw,
        r.x == x,
        r.y == y,
{
    PositionedImage { image: raw, x, y }
}

/// A row-major index computed from in-bounds coordinates stays inside the
/// pixel buffer.
pub proof fn lemma_row_major_index(wdt: int, hgt: int, x: int, y: int)
    requires
        0 <= x < wdt,
        0 <= y < hgt,
    ensures
        0 <= y * wdt + x < wdt * hgt,
{
    assert(0 <= y * wdt + x < wdt * hgt) by (nonlinear_arith)
        requires
            0 <= x < wdt,
            0 <= y < hgt,
    ;
}

/// The big-endian 16-bit value formed by two bytes.
pub open spec fn be_word(hi: u8, lo: u8) -> int {
    hi * 256 + lo
}

/// Decode an image from raw bytes, two bytes per pixel in big-endian order,
/// rendered at the given width.  The height follows from the length of the
/// data; bytes beyond the last full row are ignored.  A zero width, a width
/// beyond [`MAX_DIMENSION`] or data for more than [`MAX_DIMENSION`] rows is
/// rejected.
pub fn raw_from_bytes(bytes: &Vec<u8>, width: u32) -> (r: RPiResult<RawImage>)
    ensures
        r is Ok <==> (1 <= width <= MAX_DIMENSION
            && bytes@.len() as int / (2 * width as int) <= MAX_DIMENSION),
        r matches Ok(img) ==> {
            &&& img.wf()
            &&& img.width == width
            &&& img.height == bytes@.len() as int / (2 * width as int)
            &&& forall|k: int|
                0 <= k < img.pixels@.len() ==> img.pixels@[k] == be_word(
                    bytes@[2 * k],
                    bytes@[2 * k + 1],
                )
        },
{
    if width == 0 || width > MAX_DIMENSION {
        return Err(
            RPiError::InvalidInput(
                String::from_str("width"),
                String::from_str("must be between 1 and 65535"),
            ),
        );
    }
    let bytes_per_row: usize = 2 * (width as usize);
    let height_big: usize = bytes.len() / bytes_per_row;
    if height_big > MAX_DIMENSION as usize {
        return Err(
            RPiError::InvalidInput(
                String::from_str("bytes"),
                String::from_str("holds more than 65535 rows"),
            ),
        );
    }
    let height: u32 = height_big as u32;
    let total: usize = bytes.len();
    proof {
        vstd::arithmetic::mul::lemma_mul_upper_bound(width as int, 65535, height as int, 65535);
    }
    let count: usize = (width as usize) * (height as usize);
    proof {
        let l = bytes@.len() as int;
        let w = width as int;
        let q = l / (2 * w);
        vstd::arithmetic::div_mod::lemma_fundamental_div_mod(l, 2 * w);
        vstd::arithmetic::div_mod::lemma_mod_bound(l, 2 * w);
        vstd::arithmetic::mul::lemma_mul_is_associative(2, w, q);
        assert(2 * (w * q) <= l);
        assert(count == w * q);
    }
    let mut pixels: Vec<u16> = Vec::new();
    let mut k: usize = 0;
    while k < count
        invariant
            k <= count,
            count * 2 <= total,
            total == bytes@.len(),
            pixels@.len() == k,
            forall|i: int|
                0 <= i < k ==> pixels@[i] == be_word(bytes@[2 * i], bytes@[2 * i + 1]),
        decreases count - k,
    {
        let hi: u16 = bytes[2 * k] as u16;
        let lo: u16 = bytes[2 * k + 1] as u16;
        pixels.push(hi * 256 + lo);
        k = k + 1;
    }
    Ok(RawImage { pixels, width, height })
}

} // verus!
