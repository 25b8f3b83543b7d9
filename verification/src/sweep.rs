//! Sweep: reveal a growing window of an image in one of five directions.
//!
//! At step `s` of `n` the revealed fraction is `(s + 1) / n`, capped at one;
//! spans are computed with integer arithmetic, rounding down.  The revealed
//! window is cut out of the source image and drawn at the window's own
//! offset, so the rest of the target keeps whatever it showed before.

use vstd::prelude::*;
use vstd::string::StringExecFns;

use crate::crop::crop_raw;
use crate::crop::is_crop_of;
use crate::errors::RPiResult;
use crate::generator::FrameGenerator;
use crate::image::PositionedImage;
use crate::image::RawImage;

verus! {

/// The direction from which a sweep reveals the image.
#[derive(Debug, Clone, Copy, PartialEq, Eq, Structural)]
pub enum SweepDirection {
    FromLeft,
    FromRight,
    FromTop,
    FromBottom,
    InsideOut,
}

impl SweepDirection {
    /// The words describing this direction.
    pub open spec fn direction_spec(self) -> Seq<char> {
        match self {
            SweepDirection::FromLeft => "from left to right"@,
            SweepDirection::FromRight => "from right to left"@,
            SweepDirection::FromTop => "from top to bottom"@,
            SweepDirection::FromBottom => "from bottom to top"@,
            SweepDirection::InsideOut => "from inside to outside"@,
        }
    }

    /// Describe the direction in words.
    pub fn direction(&self) -> (r: &'static str)
        ensures
            r@ == self.direction_spec(),
    {
        match self {
            SweepDirection::FromLeft => "from left to right",
            SweepDirection::FromRight => "from right to left",
            SweepDirection::FromTop => "from top to bottom",
            SweepDirection::FromBottom => "from bottom to top",
            SweepDirection::InsideOut => "from inside to outside",
        }
    }
}

/// How many of the `steps` slices are revealed at `step`: one more than the
/// step index, capped at the total.
pub open spec fn sweep_progress(step: u32, steps: u32) -> int {
    if step + 1 <= steps {
        step + 1
    } else {
        steps as int
    }
}

/// The length of the revealed part of a dimension of `dim` at `step` of
/// `steps`: the whole length scaled by the revealed fraction, rounded down.
pub open spec fn sweep_span(dim: u32, step: u32, steps: u32) -> int {
    dim * sweep_progress(step, steps) / (steps as int)
}

/// The window `(x, y, w, h)` of a `w` by `h` target revealed at `step` of
/// `steps` when sweeping from the given direction.
pub open spec fn sweep_rect(
    direction: SweepDirection,
    step: u32,
    steps: u32,
    w: u32,
    h: u32,
) -> (int, int, int, int) {
    let rw = sweep_span(w, step, steps);
    let rh = sweep_span(h, step, steps);
    match direction {
        SweepDirection::FromLeft => (0, 0, rw, h as int),
        SweepDirection::FromRight => (w - rw, 0, rw, h as int),
        SweepDirection::FromTop => (0, 0, w as int, rh),
        SweepDirection::FromBottom => (0, h - rh, w as int, rh),
        SweepDirection::InsideOut => ((w - rw) / 2, (h - rh) / 2, rw, rh),
    }
}

/// The revealed span never exceeds the dimension, and at the last step it is
/// the full dimension.
pub proof fn lemma_sweep_span_bounds(dim: u32, step: u32, steps: u32)
    requires
        1 <= steps,
    ensures
        0 <= sweep_span(dim, step, steps) <= dim,
        step >= steps - 1 ==> sweep_span(dim, step, steps) == dim,
{
    let p = sweep_progress(step, steps);
    assert(1 <= p <= steps);
    vstd::arithmetic::mul::lemma_mul_inequality(p, steps as int, dim as int);
    vstd::arithmetic::mul::lemma_mul_is_commutative(p, dim as int);
    vstd::arithmetic::mul::lemma_mul_is_commutative(steps as int, dim as int);
    vstd::arithmetic::div_mod::lemma_div_is_ordered(
        dim as int * p,
        dim as int * steps,
        steps as int,
    );
    vstd::arithmetic::div_mod::lemma_div_multiples_vanish(dim as int, steps as int);
    vstd::arithmetic::mul::lemma_mul_nonnegative(dim as int, p);
    vstd::arithmetic::div_mod::lemma_div_pos_is_pos(dim as int * p, steps as int);
    if step >= steps - 1 {
        assert(p == steps);
    }
}

/// Compute the revealed span of a dimension: `dim * min(step + 1, steps) /
/// steps`, rounded down.
pub fn sweep_span_exec(dim: u32, step: u32, steps: u32) -> (r: u32)
    requires
        1 <= steps,
        dim <= crate::image::MAX_DIMENSION,
    ensures
        r == sweep_span(dim, step, steps),
        r <= dim,
{
    let m: u32 = if step >= steps {
        steps
    } else {
        step + 1
    };
    proof {
        lemma_sweep_span_bounds(dim, step, steps);
        vstd::arithmetic::mul::lemma_mul_upper_bound(dim as int, 65535, m as int, u32::MAX as int);
    }
    let num: u64 = (dim as u64) * (m as u64);
    let r64: u64 = num / (steps as u64);
    r64 as u32
}

/// The window of the target revealed at `step` of `steps` when sweeping a
/// `w` by `h` target from the given direction, as `(x, y, w, h)`.
pub fn sweep_region(direction: &SweepDirection, step: u32, steps: u32, w: u32, h: u32) -> (r: (
    u32,
    u32,
    u32,
    u32,
))
    requires
        1 <= steps,
        w <= crate::image::MAX_DIMENSION,
        h <= crate::image::MAX_DIMENSION,
    ensures
        r.0 == sweep_rect(*direction, step, steps, w, h).0,
        r.1 == sweep_rect(*direction, step, steps, w, h).1,
        r.2 == sweep_rect(*direction, step, steps, w, h).2,
        r.3 == sweep_rect(*direction, step, steps, w, h).3,
        r.0 + r.2 <= w,
        r.1 + r.3 <= h,
{
    let rw = sweep_span_exec(w, step, steps);
    let rh = sweep_span_exec(h, step, steps);
    match direction {
        SweepDirection::FromLeft => (0, 0, rw, h),
        SweepDirection::FromRight => (w - rw, 0, rw, h),
        SweepDirection::FromTop => (0, 0, w, rh),
        SweepDirection::FromBottom => (0, h - rh, w, rh),
        SweepDirection::InsideOut => ((w - rw) / 2, (h - rh) / 2, rw, rh),
    }
}

/// `r` is the sweep frame for `step` of `steps` over `from`: the revealed
/// window cut out of `from`, positioned at the window's own offset.
pub open spec fn is_sweep_frame(
    r: PositionedImage,
    from: RawImage,
    direction: SweepDirection,
    step: u32,
    steps: u32,
) -> bool {
    let rect = sweep_rect(direction, step, steps, from.width, from.height);
    &&& r.x == rect.0
    &&& r.y == rect.1
    &&& r.image.wf()
    &&& is_crop_of(r.image, from, rect.0, rect.1, rect.2, rect.3)
}

/// Compute the sweep frame for `step` of `steps` over `from`.
pub fn sweep_frame(from: &RawImage, direction: &SweepDirection, step: u32, steps: u32) -> (r:
    PositionedImage)
    requires
        from.wf(),
        1 <= steps,
    ensures
        is_sweep_frame(r, *from, *direction, step, steps),
{
    let (x, y, w, h) = sweep_region(direction, step, steps, from.width, from.height);
    let image = crop_raw(from, x as i32, y as i32, w, h);
    PositionedImage { image, x: x as i32, y: y as i32 }
}

/// Build the generator that sweeps the source image in over `steps` steps
/// from the given direction.  A step count of zero is rejected.
pub fn sweep(steps: u32, direction: SweepDirection) -> (r: RPiResult<FrameGenerator>)
    ensures
        r is Ok <==> steps >= 1,
        r matches Ok(g) ==> g == (FrameGenerator::Sweep { steps, direction }),
{
    if steps == 0 {
        return Err(
            crate::errors::RPiError::InvalidInput(
                String::from_str("steps"),
                String::from_str("must be greater than 0"),
            ),
        );
    }
    Ok(FrameGenerator::Sweep { steps, direction })
}

} // verus!
