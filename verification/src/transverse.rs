//! Transverse: pan a full-size window across a source image.
//!
//! The window's top-left corner moves on the straight line from a start
//! point to an end point as the step counter runs from zero to the step
//! total, with integer interpolation rounding down; the window itself is
//! always drawn at the origin of the target.

use vstd::prelude::*;
use vstd::string::StringExecFns;

use crate::crop::clip_start;
use crate::crop::crop_raw;
use crate::crop::is_crop_of;
use crate::errors::RPiError;
use crate::errors::RPiResult;
use crate::generator::FrameGenerator;
use crate::image::PositionedImage;
use crate::image::RawImage;

verus! {

/// The point on the line from `start` to `end` reached after `step` of
/// `steps`, rounding toward `start`.  Beyond the last step the point stays
/// at `end`.
pub open spec fn lerp(start: u32, end: u32, step: u32, steps: u32) -> int {
    let m: int = if step <= steps {
        step as int
    } else {
        steps as int
    };
    if end >= start {
        start + (end - start) * m / (steps as int)
    } else {
        start - (start - end) * m / (steps as int)
    }
}

/// The interpolated point lies between its two endpoints.
pub proof fn lemma_lerp_bounds(start: u32, end: u32, step: u32, steps: u32)
    requires
        1 <= steps,
    ensures
        end >= start ==> start <= lerp(start, end, step, steps) <= end,
        end < start ==> end <= lerp(start, end, step, steps) <= start,
{
    let m: int = if step <= steps {
        step as int
    } else {
        steps as int
    };
    let d: int = if end >= start {
        end - start
    } else {
        start - end
    };
    vstd::arithmetic::mul::lemma_mul_inequality(m, steps as int, d);
    vstd::arithmetic::mul::lemma_mul_is_commutative(m, d);
    vstd::arithmetic::mul::lemma_mul_is_commutative(steps as int, d);
    vstd::arithmetic::div_mod::lemma_div_is_ordered(d * m, d * steps, steps as int);
    vstd::arithmetic::div_mod::lemma_div_multiples_vanish(d, steps as int);
    vstd::arithmetic::mul::lemma_mul_nonnegative(d, m);
    vstd::arithmetic::div_mod::lemma_div_pos_is_pos(d * m, steps as int);
}

/// Compute the interpolated coordinate for `step` of `steps` on the line
/// from `start` to `end`.
pub fn transverse_pos(start: u32, end: u32, step: u32, steps: u32) -> (r: u32)
    requires
        1 <= steps,
    ensures
        r == lerp(start, end, step, steps),
{
    let m: u32 = if step > steps {
        steps
    } else {
        step
    };
    proof {
        lemma_lerp_bounds(start, end, step, steps);
    }
    if end >= start {
        let d: u64 = (end - start) as u64;
        proof {
            vstd::arithmetic::mul::lemma_mul_upper_bound(
                d as int,
                u32::MAX as int,
                m as int,
                u32::MAX as int,
            );
        }
        let off: u64 = d * (m as u64) / (steps as u64);
        start + (off as u32)
    } else {
        let d: u64 = (start - end) as u64;
        proof {
            vstd::arithmetic::mul::lemma_mul_upper_bound(
                d as int,
                u32::MAX as int,
                m as int,
                u32::MAX as int,
            );
        }
        let off: u64 = d * (m as u64) / (steps as u64);
        start - (off as u32)
    }
}

/// `r` is the transverse frame for `step` of `steps` over `from`: the
/// full-size window of `from` whose corner has moved from `(start_x,
/// start_y)` toward `(end_x, end_y)`, drawn at the origin.
pub open spec fn is_transverse_frame(
    r: PositionedImage,
    from: RawImage,
    start_x: u32,
    start_y: u32,
    end_x: u32,
    end_y: u32,
    step: u32,
    steps: u32,
) -> bool {
    &&& r.x == 0
    &&& r.y == 0
    &&& r.image.wf()
    &&& is_crop_of(
        r.image,
        from,
        lerp(start_x, end_x, step, steps),
        lerp(start_y, end_y, step, steps),
        from.width as int,
        from.height as int,
    )
}

/// Compute the transverse frame for `step` of `steps` over `from`.
pub fn transverse_frame(
    from: &RawImage,
    start_x: u32,
    start_y: u32,
    end_x: u32,
    end_y: u32,
    step: u32,
    steps: u32,
) -> (r: PositionedImage)
    requires
        from.wf(),
        1 <= steps,
    ensures
        is_transverse_frame(r, *from, start_x, start_y, end_x, end_y, step, steps),
{
    let px = transverse_pos(start_x, end_x, step, steps);
    let py = transverse_pos(start_y, end_y, step, steps);
    let cx: u32 = if px > from.width {
        from.width
    } else {
        px
    };
    let cy: u32 = if py > from.height {
        from.height
    } else {
        py
    };
    proof {
        assert(clip_start(px as int, from.width as int) == clip_start(
            cx as int,
            from.width as int,
        ));
        assert(clip_start(py as int, from.height as int) == clip_start(
            cy as int,
            from.height as int,
        ));
    }
    let w = from.width;
    let h = from.height;
    let image = crop_raw(from, cx as i32, cy as i32, w, h);
    PositionedImage { image, x: 0, y: 0 }
}

/// Build the generator that pans a window across the source image over
/// `steps` steps, from `(start_x, start_y)` to `(end_x, end_y)`.  A step
/// count of zero is rejected.
pub fn transverse(steps: u32, start_x: u32, start_y: u32, end_x: u32, end_y: u32) -> (r: RPiResult<
    FrameGenerator,
>)
    ensures
        r is Ok <==> steps >= 1,
        r matches Ok(g) ==> g == (FrameGenerator::Transverse {
            steps,
            start_x,
            start_y,
            end_x,
            end_y,
        }),
{
    if steps == 0 {
        return Err(
            RPiError::InvalidInput(
                String::from_str("steps"),
                String::from_str("must be greater than 0"),
            ),
        );
    }
    Ok(FrameGenerator::Transverse { steps, start_x, start_y, end_x, end_y })
}

} // verus!
