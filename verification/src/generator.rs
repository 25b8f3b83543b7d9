//! The frame generator capability: one closed set of visual effects.
//!
//! A generator is invoked with the two source images and a step index and
//! computes the frame for that step on its own, with no hidden state between
//! calls; the driver may therefore skip steps freely.  The effects form a
//! tagged set of variants chosen at construction time through [`sweep`],
//! [`transverse`] and [`dissolve`].
//!
//! [`sweep`]: crate::sweep::sweep
//! [`transverse`]: crate::transverse::transverse
//! [`dissolve`]: crate::dissolve::dissolve

use vstd::prelude::*;

use crate::dissolve::dissolve_frame;
use crate::dissolve::is_dissolve_frame;
use crate::dissolve::DissolveGenerator;
use crate::errors::RPiError;
use crate::errors::RPiResult;
use crate::image::PositionedImage;
use crate::image::RawImage;
use crate::sweep::is_sweep_frame;
use crate::sweep::sweep_frame;
use crate::sweep::SweepDirection;
use crate::transverse::is_transverse_frame;
use crate::transverse::transverse_frame;

verus! {

/// A frame generator: the effect to render, with the parameters fixed at
/// construction.
#[derive(Debug, Clone)]
pub enum FrameGenerator {
    /// Reveal a growing window of the source image; the target image is
    /// accepted for uniformity and ignored.
    Sweep { steps: u32, direction: SweepDirection },
    /// Pan a full-size window across the source image; the target image is
    /// accepted for uniformity and ignored.
    Transverse { steps: u32, start_x: u32, start_y: u32, end_x: u32, end_y: u32 },
    /// Blend the source into the target pixel by pixel, by fixed random
    /// thresholds.
    Dissolve(DissolveGenerator),
}

impl FrameGenerator {
    /// Well-formedness: every variant has at least one step.
    pub open spec fn wf(self) -> bool {
        match self {
            FrameGenerator::Sweep { steps, .. } => steps >= 1,
            FrameGenerator::Transverse { steps, .. } => steps >= 1,
            FrameGenerator::Dissolve(d) => d.wf(),
        }
    }

    /// What [`FrameGenerator::frame`] returns: the frame is a function of
    /// the generator, the images and the step alone.  Only the dissolve can
    /// fail, and only on images of unequal size.
    pub open spec fn frame_matches(
        self,
        from: RawImage,
        to: RawImage,
        step: u32,
        r: RPiResult<PositionedImage>,
    ) -> bool {
        match self {
            FrameGenerator::Sweep { steps, direction } => r matches Ok(p) && is_sweep_frame(
                p,
                from,
                direction,
                step,
                steps,
            ),
            FrameGenerator::Transverse { steps, start_x, start_y, end_x, end_y } => r matches Ok(p)
                && is_transverse_frame(p, from, start_x, start_y, end_x, end_y, step, steps),
            FrameGenerator::Dissolve(d) => if from.width == to.width && from.height == to.height {
                r matches Ok(p) && is_dissolve_frame(p, d, from, to, step)
            } else {
                r matches Err(e) && e is InvalidInput
            },
        }
    }

    /// Compute the frame for `step`.  The generator holds no mutable state:
    /// the result is fully determined by the generator, the images and the
    /// step, as `frame_matches` states.
    pub fn frame(&self, from: &RawImage, to: &RawImage, step: u32) -> (r: RPiResult<
        PositionedImage,
    >)
        requires
            self.wf(),
            from.wf(),
            to.wf(),
        ensures
            self.frame_matches(*from, *to, step, r),
            r is Err ==> !(from.width == to.width && from.height == to.height),
    {
        match self {
            FrameGenerator::Sweep { steps, direction } => Ok(
                sweep_frame(from, direction, step, *steps),
            ),
            FrameGenerator::Transverse { steps, start_x, start_y, end_x, end_y } => Ok(
                transverse_frame(from, *start_x, *start_y, *end_x, *end_y, step, *steps),
            ),
            FrameGenerator::Dissolve(d) => dissolve_frame(d, from, to, step),
        }
    }
}

} // verus!
