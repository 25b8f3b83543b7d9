//! Dissolve: a stochastic per-pixel blend of two images.
//!
//! Each pixel is assigned a random threshold step drawn once when the
//! generator is built; at step `s` the pixels whose threshold is at most `s`
//! show the target image, the rest still show the source.  Because the
//! thresholds are fixed per generator instance, a pixel's transition point
//! stays the same across steps and across repeated frames for one step.

use vstd::prelude::*;
use vstd::string::StringExecFns;

use crate::errors::RPiError;
use crate::errors::RPiResult;
use crate::generator::FrameGenerator;
use crate::image::PositionedImage;
use crate::image::RawImage;

verus! {

/// The per-pixel thresholds of one dissolve instance, drawn at construction
/// and reused for every frame.
#[derive(Debug, Clone)]
pub struct DissolveGenerator {
    pub thresholds: Vec<u32>,
    pub steps: u32,
}

impl DissolveGenerator {
    /// Well-formedness: at least one threshold, at least one step, and every
    /// threshold below the step total.
    pub open spec fn wf(self) -> bool {
        &&& self.thresholds@.len() >= 1
        &&& self.steps >= 1
        &&& forall|i: int| 0 <= i < self.thresholds@.len() ==> self.thresholds@[i] < self.steps
    }
}

/// Relies on rand's `Rng::gen_range` over the range `0..bound`: it returns a
/// value of the range, and panics only when the range is empty.
#[verifier::external_body]
fn random_below(bound: u32) -> (r: u32)
    requires
        bound >= 1,
    ensures
        r < bound,
{
    rand::Rng::gen_range(&mut rand::thread_rng(), 0..bound)
}

/// Build the generator that dissolves the source image into the target over
/// `steps` steps, drawing `random_size` pixel thresholds once.  A size or
/// step count of zero is rejected.
pub fn dissolve(random_size: usize, steps: u32) -> (r: RPiResult<FrameGenerator>)
    ensures
        r is Ok <==> (random_size >= 1 && steps >= 1),
        r matches Ok(g) ==> g matches FrameGenerator::Dissolve(d) && d.wf()
            && d.thresholds@.len() == random_size && d.steps == steps,
{
    if random_size == 0 {
        return Err(
            RPiError::InvalidInput(
                String::from_str("random_size"),
                String::from_str("must be greater than 0"),
            ),
        );
    }
    if steps == 0 {
        return Err(
            RPiError::InvalidInput(
                String::from_str("steps"),
                String::from_str("must be greater than 0"),
            ),
        );
    }
    let mut thresholds: Vec<u32> = Vec::new();
    let mut k: usize = 0;
    while k < random_size
        invariant
            k <= random_size,
            steps >= 1,
            thresholds@.len() == k,
            forall|i: int| 0 <= i < k ==> thresholds@[i] < steps,
        decreases random_size - k,
    {
        let t = random_below(steps);
        thresholds.push(t);
        k = k + 1;
    }
    Ok(FrameGenerator::Dissolve(DissolveGenerator { thresholds, steps }))
}

/// Whether pixel `k` already shows the target image at `step`: its threshold
/// (the thresholds repeat cyclically over the pixels) is at most `step`.
pub open spec fn dissolve_shows_target(thresholds: Seq<u32>, k: int, step: u32) -> bool {
    thresholds[k % thresholds.len() as int] <= step
}

/// `r` is the dissolve frame for `step` over `from` and `to`: a full frame
/// at the origin in which each pixel comes from `to` where its threshold has
/// passed and from `from` where it has not.
pub open spec fn is_dissolve_frame(
    r: PositionedImage,
    g: DissolveGenerator,
    from: RawImage,
    to: RawImage,
    step: u32,
) -> bool {
    &&& r.x == 0
    &&& r.y == 0
    &&& r.image.wf()
    &&& r.image.width == from.width
    &&& r.image.height == from.height
    &&& forall|k: int|
        0 <= k < r.image.pixels@.len() ==> r.image.pixels@[k] == (if dissolve_shows_target(
            g.thresholds@,
            k,
            step,
        ) {
            to.pixels@[k]
        } else {
            from.pixels@[k]
        })
}

/// Compute the dissolve frame for `step` over `from` and `to`.  Images of
/// different sizes are rejected before any pixel is touched.
pub fn dissolve_frame(g: &DissolveGenerator, from: &RawImage, to: &RawImage, step: u32) -> (r:
    RPiResult<PositionedImage>)
    requires
        g.wf(),
        from.wf(),
        to.wf(),
    ensures
        r is Ok <==> (from.width == to.width && from.height == to.height),
        r matches Err(e) ==> e is InvalidInput,
        r matches Ok(p) ==> is_dissolve_frame(p, *g, *from, *to, step),
{
    let (fw, fh) = from.size();
    let (tw, th) = to.size();
    if fw != tw || fh != th {
        return Err(
            RPiError::InvalidInput(
                String::from_str("images to be dissolved"),
                String::from_str("must be the same size"),
            ),
        );
    }
    let count: usize = from.pixels.len();
    let tcount: usize = to.pixels.len();
    let size: usize = g.thresholds.len();
    let mut pixels: Vec<u16> = Vec::new();
    let mut k: usize = 0;
    while k < count
        invariant
            g.wf(),
            count == from.pixels@.len(),
            count == to.pixels@.len(),
            size == g.thresholds@.len(),
            k <= count,
            pixels@.len() == k,
            forall|i: int|
                0 <= i < k ==> pixels@[i] == (if dissolve_shows_target(g.thresholds@, i, step) {
                    to.pixels@[i]
                } else {
                    from.pixels@[i]
                }),
        decreases count - k,
    {
        let t: u32 = g.thresholds[k % size];
        let px: u16 = if t <= step {
            to.pixels[k]
        } else {
            from.pixels[k]
        };
        pixels.push(px);
        k = k + 1;
    }
    let image = RawImage { pixels, width: fw, height: fh };
    Ok(PositionedImage { image, x: 0, y: 0 })
}

/// Dissolve determinism within one generator instance: a frame is a function
/// of the stored thresholds, the images and the step alone, so two frames
/// computed for the same step on the same images agree in every pixel and in
/// their placement.
pub proof fn lemma_dissolve_deterministic(
    g: DissolveGenerator,
    from: RawImage,
    to: RawImage,
    step: u32,
    r1: PositionedImage,
    r2: PositionedImage,
)
    requires
        from.wf(),
        is_dissolve_frame(r1, g, from, to, step),
        is_dissolve_frame(r2, g, from, to, step),
    ensures
        r1.image.pixels@ == r2.image.pixels@,
        r1.image.width == r2.image.width,
        r1.image.height == r2.image.height,
        r1.x == r2.x,
        r1.y == r2.y,
{
    assert(r1.image.pixels@ =~= r2.image.pixels@);
}

} // verus!
