//! Cropping a rectangular window out of an image.
//!
//! All crops clip their window to the bounds of the source image: offsets
//! left of or above the image are moved to its edge, and spans are shortened
//! so that the window never reaches past the far edge.  A window that lies
//! entirely outside the source yields an empty image.

use vstd::prelude::*;

use crate::image::RawImage;

verus! {

/// An offset clipped into `[0, dim]`.
pub open spec fn clip_start(v: int, dim: int) -> int {
    if v < 0 {
        0
    } else if v > dim {
        dim
    } else {
        v
    }
}

/// A span clipped so that a window starting at `start` (already clipped)
/// stays inside a dimension of `dim`.
pub open spec fn clip_span(start: int, span: int, dim: int) -> int {
    if span > dim - start {
        dim - start
    } else {
        span
    }
}

/// The entry of a row-major pixel buffer of row length `cw` at row `a`,
/// column `b`.  Stands in for the indexing arithmetic where a quantifier
/// needs a trigger.
pub open spec fn row_pix(s: Seq<u16>, cw: int, a: int, b: int) -> u16 {
    s[a * cw + b]
}

/// An entry of an earlier row sits strictly below the start of row `i` in a
/// row-major buffer.
proof fn lemma_row_major_lt(cw: int, a: int, b: int, i: int)
    requires
        0 <= b < cw,
        0 <= a < i,
    ensures
        0 <= a * cw + b < i * cw,
{
    assert(0 <= a * cw + b < i * cw) by (nonlinear_arith)
        requires
            0 <= b < cw,
            0 <= a < i,
    ;
}

/// `r` is the window of `img` with top-left corner `(x, y)` and size
/// `(w, h)`, clipped to the bounds of `img`.
pub open spec fn is_crop_of(r: RawImage, img: RawImage, x: int, y: int, w: int, h: int) -> bool {
    let x0 = clip_start(x, img.width as int);
    let y0 = clip_start(y, img.height as int);
    let cw = clip_span(x0, w, img.width as int);
    let ch = clip_span(y0, h, img.height as int);
    &&& r.width == cw
    &&& r.height == ch
    &&& r.pixels@.len() == cw * ch
    &&& forall|i: int, j: int|
        0 <= i < ch && 0 <= j < cw ==> r.pix(j, i) == img.pix(x0 + j, y0 + i)
}

/// Copy the window of `raw` with top-left corner `(x, y)` and size `(w, h)`
/// into an image of its own, clipped to the bounds of `raw`.
pub fn crop_raw(raw: &RawImage, x: i32, y: i32, w: u32, h: u32) -> (r: RawImage)
    requires
        raw.wf(),
    ensures
        r.wf(),
        is_crop_of(r, *raw, x as int, y as int, w as int, h as int),
{
    let x0: u32 = if x <= 0 {
        0
    } else if x as u32 > raw.width {
        raw.width
    } else {
        x as u32
    };
    let y0: u32 = if y <= 0 {
        0
    } else if y as u32 > raw.height {
        raw.height
    } else {
        y as u32
    };
    let cw: u32 = if w > raw.width - x0 {
        raw.width - x0
    } else {
        w
    };
    let ch: u32 = if h > raw.height - y0 {
        raw.height - y0
    } else {
        h
    };
    let mut pixels: Vec<u16> = Vec::new();
    let mut i: u32 = 0;
    while i < ch
        invariant
            raw.wf(),
            x0 + cw <= raw.width,
            y0 + ch <= raw.height,
            i <= ch,
            pixels@.len() == i * cw,
            forall|a: int, b: int|
                0 <= a < i && 0 <= b < cw ==> row_pix(pixels@, cw as int, a, b) == raw.pix(
                    x0 + b,
                    y0 + a,
                ),
        decreases ch - i,
    {
        let mut j: u32 = 0;
        while j < cw
            invariant
                raw.wf(),
                x0 + cw <= raw.width,
                y0 + ch <= raw.height,
                i < ch,
                j <= cw,
                pixels@.len() == i * cw + j,
                forall|a: int, b: int|
                    0 <= a < i && 0 <= b < cw ==> row_pix(pixels@, cw as int, a, b) == raw.pix(
                        x0 + b,
                        y0 + a,
                    ),
                forall|b: int|
                    0 <= b < j ==> row_pix(pixels@, cw as int, i as int, b) == raw.pix(
                        x0 + b,
                        y0 + i as int,
                    ),
            decreases cw - j,
        {
            proof {
                crate::image::lemma_row_major_index(
                    raw.width as int,
                    raw.height as int,
                    x0 + j,
                    y0 + i,
                );
                vstd::arithmetic::mul::lemma_mul_upper_bound(
                    (y0 + i) as int,
                    65535,
                    raw.width as int,
                    65535,
                );
            }
            let idx: usize = ((y0 + i) as usize) * (raw.width as usize) + ((x0 + j) as usize);
            let ghost before = pixels@;
            pixels.push(raw.pixels[idx]);
            proof {
                assert forall|a: int, b: int| 0 <= a < i && 0 <= b < cw implies row_pix(
                    pixels@,
                    cw as int,
                    a,
                    b,
                ) == raw.pix(x0 + b, y0 + a) by {
                    lemma_row_major_lt(cw as int, a, b, i as int);
                    assert(row_pix(pixels@, cw as int, a, b) == row_pix(before, cw as int, a, b));
                };
                assert forall|b: int| 0 <= b <= j implies row_pix(pixels@, cw as int, i as int, b)
                    == raw.pix(x0 + b, y0 + i as int) by {
                    vstd::arithmetic::mul::lemma_mul_nonnegative(i as int, cw as int);
                    if b < j {
                        assert(row_pix(pixels@, cw as int, i as int, b) == row_pix(
                            before,
                            cw as int,
                            i as int,
                            b,
                        ));
                    } else {
                        assert(i * cw + b == before.len());
                    }
                };
            }
            j = j + 1;
        }
        proof {
            assert((i + 1) * cw == i * cw + cw) by (nonlinear_arith);
        }
        i = i + 1;
    }
    proof {
        vstd::arithmetic::mul::lemma_mul_upper_bound(ch as int, 65535, cw as int, 65535);
    }
    let r = RawImage { pixels, width: cw, height: ch };
    proof {
        vstd::arithmetic::mul::lemma_mul_is_commutative(ch as int, cw as int);
        assert forall|a: int, b: int| 0 <= a < ch && 0 <= b < cw implies r.pix(b, a) == raw.pix(
            x0 + b,
            y0 + a,
        ) by {
            assert(row_pix(r.pixels@, cw as int, a, b) == raw.pix(x0 + b, y0 + a));
        };
    }
    r
}

/// Copy the window of `raw` spanned by the two corners `(x1, y1)` and
/// `(x2, y2)`, in either order, clipped to the bounds of `raw`.
pub fn crop_raw_to(raw: &RawImage, x1: i32, y1: i32, x2: i32, y2: i32) -> (r: RawImage)
    requires
        raw.wf(),
    ensures
        r.wf(),
        is_crop_of(
            r,
            *raw,
            if x1 < x2 { x1 as int } else { x2 as int },
            if y1 < y2 { y1 as int } else { y2 as int },
            if x1 < x2 { x2 - x1 } else { x1 - x2 },
            if y1 < y2 { y2 - y1 } else { y1 - y2 },
        ),
{
    let (ax, bx): (i32, i32) = if x1 < x2 {
        (x1, x2)
    } else {
        (x2, x1)
    };
    let (ay, by): (i32, i32) = if y1 < y2 {
        (y1, y2)
    } else {
        (y2, y1)
    };
    let w: u32 = ((bx as i64) - (ax as i64)) as u32;
    let h: u32 = ((by as i64) - (ay as i64)) as u32;
    crop_raw(raw, ax, ay, w, h)
}

/// Crop away the part of `raw` left of the `at` coordinate, keeping at most
/// `width` columns, and the full height.
pub fn crop_horizontal(raw: &RawImage, at: i32, width: u32) -> (r: RawImage)
    requires
        raw.wf(),
    ensures
        r.wf(),
        is_crop_of(r, *raw, at as int, 0, width as int, raw.height as int),
{
    let h = raw.height;
    crop_raw(raw, at, 0, width, h)
}

/// Crop away the part of `raw` above the `at` coordinate, keeping at most
/// `height` rows, and the full width.
pub fn crop_vertical(raw: &RawImage, at: i32, height: u32) -> (r: RawImage)
    requires
        raw.wf(),
    ensures
        r.wf(),
        is_crop_of(r, *raw, 0, at as int, raw.width as int, height as int),
{
    let w = raw.width;
    crop_raw(raw, 0, at, w, height)
}

} // verus!
