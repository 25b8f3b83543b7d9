//! The transition driver: pacing frames against the wall clock.
//!
//! A [`Transition`] owns a pair of images, a frame generator and a schedule
//! of `steps` frames over a fixed duration.  Each advance computes the step
//! that should be visible for the current wall-clock time, renders that step
//! and drops the stale ones in between, so a slow renderer loses frames
//! instead of falling behind; the final step is always rendered at least
//! once before the driver reports completion.
//!
//! The driver does not read a clock of its own: every advance takes the
//! current time as a plain millisecond count from any monotone clock the
//! caller chooses, and the caller suspends until the returned deadline
//! between advances.  The start instant is captured on the first advance —
//! not at construction — so that construction cost does not eat into the
//! animation's time budget.
//!
//! The skipped-frame count is a diagnostic, never an error signal.  Its
//! interpretation here: the initial state is "nothing rendered yet", so a
//! first frame rendered at step `s` counts the `s` earlier steps as skipped,
//! and a first frame at step 0 counts none.

use vstd::prelude::*;
use vstd::string::StringExecFns;

use crate::errors::RPiError;
use crate::errors::RPiResult;
use crate::generator::FrameGenerator;
use crate::image::PositionedImage;
use crate::image::RawImage;

verus! {

/// A transition between two images, driven step by step against a clock.
pub struct Transition {
    /// The image the transition starts from.
    pub from: RawImage,
    /// The image the transition leads to.  For effects that ignore it, it
    /// may hold the same picture as `from`.
    pub to: RawImage,
    /// The effect that renders each frame.
    pub transition: FrameGenerator,
    /// The number of discrete frames the transition is divided into.
    pub steps: u32,
    /// The driver's step counter: the desired step of the most recent
    /// advance, capped at `steps`.  Zero before the first advance; reaching
    /// `steps` is terminal.
    pub step: u32,
    /// Wall-clock milliseconds allotted to each step.
    pub step_duration: u64,
    /// The instant of the first advance, in the caller's clock; captured
    /// exactly once.
    pub start_time: Option<u64>,
    /// Whether any frame has been rendered yet.
    pub rendered: bool,
    /// How many steps were superseded by a later one before being rendered.
    pub skipped_count: u32,
}

impl Transition {
    /// Well-formedness of the driver state.
    pub open spec fn wf(self) -> bool {
        &&& self.steps >= 1
        &&& self.step_duration >= 1
        &&& self.step <= self.steps
        &&& self.skipped_count <= self.step
        &&& self.from.wf()
        &&& self.to.wf()
        &&& self.transition.wf()
        &&& (!self.rendered ==> self.step == 0 && self.skipped_count == 0)
        &&& (self.rendered ==> self.start_time is Some)
    }

    /// The start instant recorded so far, or zero before the first advance.
    pub open spec fn start(self) -> int {
        match self.start_time {
            Some(s) => s as int,
            None => 0,
        }
    }

    /// The start instant an advance at `now` uses: the recorded one, or
    /// `now` itself on the first advance.
    pub open spec fn start_at(self, now: u64) -> u64 {
        match self.start_time {
            Some(s) => s,
            None => now,
        }
    }

    /// Milliseconds elapsed at `now` since the start; a clock reading before
    /// the start counts as no time elapsed.
    pub open spec fn elapsed_at(self, now: u64) -> int {
        if now >= self.start_at(now) {
            now - self.start_at(now)
        } else {
            0
        }
    }

    /// The step index the wall clock has reached at `now`: the elapsed time
    /// over the step duration, rounded down.
    pub open spec fn clock_step(self, now: u64) -> int {
        self.elapsed_at(now) / (self.step_duration as int)
    }

    /// The step an advance at `now` moves the counter to: the clock step,
    /// never below the driver's own bookkeeping, capped at the step total.
    pub open spec fn desired_step(self, now: u64) -> int {
        let c = if self.clock_step(now) >= self.step {
            self.clock_step(now)
        } else {
            self.step as int
        };
        if c <= self.steps {
            c
        } else {
            self.steps as int
        }
    }

    /// Whether the transition is complete at `now`: the clock has run past
    /// the whole schedule and the final step has been rendered at least
    /// once.
    pub open spec fn finished_at(self, now: u64) -> bool {
        &&& self.desired_step(now) == self.steps
        &&& self.rendered
        &&& self.step >= self.steps - 1
    }

    /// The step an advance at `now` renders: the desired step, capped at the
    /// last step index.
    pub open spec fn render_step(self, now: u64) -> int {
        if self.desired_step(now) <= self.steps - 1 {
            self.desired_step(now)
        } else {
            self.steps - 1
        }
    }

    /// The step rendered by the most recent advance, meaningful once
    /// `rendered` holds.
    pub open spec fn last_rendered(self) -> int {
        if self.step <= self.steps - 1 {
            self.step as int
        } else {
            self.steps - 1
        }
    }

    /// How many steps an advance at `now` skips: the steps strictly between
    /// the previously rendered one and the one being rendered; before the
    /// first render, all the steps below the one being rendered.
    pub open spec fn skip_increment(self, now: u64) -> int {
        if !self.rendered {
            self.render_step(now)
        } else if self.render_step(now) > self.last_rendered() + 1 {
            self.render_step(now) - self.last_rendered() - 1
        } else {
            0
        }
    }

    /// The driver state after an advance at `now`: the start instant is
    /// pinned, and unless the transition was already finished the counter
    /// moves to the desired step, the frame is recorded as rendered and the
    /// skipped count grows by the steps passed over.
    pub open spec fn next_state(self, now: u64) -> Transition {
        let cap = Transition { start_time: Some(self.start_at(now)), ..self };
        if self.finished_at(now) {
            cap
        } else {
            Transition {
                step: self.desired_step(now) as u32,
                rendered: true,
                skipped_count: (self.skipped_count + self.skip_increment(now)) as u32,
                ..cap
            }
        }
    }

    /// The absolute instant by which the frame of `step` should be visible.
    pub open spec fn deadline_spec(self, step: int) -> int {
        self.start() + self.step_duration * step
    }

    /// Create a new transition over `steps` frames spread across `duration`
    /// milliseconds.  A step count of zero is rejected, as is a duration too
    /// short to give every step at least one whole millisecond.
    pub fn new(
        from: RawImage,
        to: RawImage,
        transition: FrameGenerator,
        steps: u32,
        duration: u64,
    ) -> (r: RPiResult<Transition>)
        requires
            from.wf(),
            to.wf(),
            transition.wf(),
        ensures
            r is Ok <==> (steps >= 1 && duration as int / (steps as int) >= 1),
            r matches Err(e) ==> e is InvalidInput,
            r matches Ok(t) ==> {
                &&& t.wf()
                &&& t.from == from
                &&& t.to == to
                &&& t.transition == transition
                &&& t.steps == steps
                &&& t.step_duration == duration as int / (steps as int)
                &&& t.step == 0
                &&& t.start_time is None
                &&& !t.rendered
                &&& t.skipped_count == 0
            },
    {
        if steps == 0 {
            return Err(
                RPiError::InvalidInput(
                    String::from_str("steps"),
                    String::from_str("must be greater than 0"),
                ),
            );
        }
        let step_duration: u64 = duration / (steps as u64);
        if step_duration == 0 {
            return Err(
                RPiError::InvalidInput(
                    String::from_str("duration"),
                    String::from_str("must allow at least one millisecond per step"),
                ),
            );
        }
        Ok(
            Transition {
                from,
                to,
                transition,
                steps,
                step: 0,
                step_duration,
                start_time: None,
                rendered: false,
                skipped_count: 0,
            },
        )
    }

    /// The start instant of the transition; on the first call it is captured
    /// from `now`, and every later call returns the same instant.
    pub fn start_time(&mut self, now: u64) -> (r: u64)
        ensures
            r == old(self).start_at(now),
            *final(self) == (Transition { start_time: Some(old(self).start_at(now)), ..*old(self) }),
    {
        match self.start_time {
            Some(s) => s,
            None => {
                self.start_time = Some(now);
                now
            },
        }
    }

    /// The step the transition should be showing at `now`.  Capturing the
    /// start instant on first use, this reports the step the clock has
    /// reached, never less than the driver's own bookkeeping, capped at the
    /// step total.
    pub fn calculate_current_step(&mut self, now: u64) -> (r: u32)
        requires
            old(self).wf(),
        ensures
            *final(self) == (Transition {
                start_time: Some(old(self).start_at(now)),
                ..*old(self)
            }),
            final(self).wf(),
            r == old(self).desired_step(now),
    {
        let start = self.start_time(now);
        let elapsed: u64 = if now >= start {
            now - start
        } else {
            0
        };
        let clock: u64 = elapsed / self.step_duration;
        proof {
            vstd::arithmetic::div_mod::lemma_div_pos_is_pos(elapsed as int, self.step_duration as int);
        }
        if clock >= self.steps as u64 {
            self.steps
        } else if clock >= self.step as u64 {
            clock as u32
        } else {
            self.step
        }
    }

    /// The absolute deadline, in the caller's clock, of the frame of `step`.
    /// A pure function of the schedule; it may be asked about a step far
    /// beyond the end.
    pub fn deadline(&self, step: u32) -> (r: u128)
        requires
            self.start_time is Some,
        ensures
            r == self.deadline_spec(step as int),
    {
        let start: u64 = match self.start_time {
            Some(s) => s,
            None => 0,
        };
        proof {
            vstd::arithmetic::mul::lemma_mul_upper_bound(
                self.step_duration as int,
                u64::MAX as int,
                step as int,
                u32::MAX as int,
            );
        }
        (start as u128) + (self.step_duration as u128) * (step as u128)
    }

    /// The deadline of the step after the driver's current one: the instant
    /// the caller should suspend until before the next advance.
    pub fn next_deadline(&self) -> (r: u128)
        requires
            self.start_time is Some,
        ensures
            r == self.deadline_spec(self.step + 1),
    {
        let start: u64 = match self.start_time {
            Some(s) => s,
            None => 0,
        };
        proof {
            vstd::arithmetic::mul::lemma_mul_upper_bound(
                self.step_duration as int,
                u64::MAX as int,
                self.step as int + 1,
                u32::MAX as int + 1,
            );
        }
        (start as u128) + (self.step_duration as u128) * ((self.step as u128) + 1)
    }

    /// Advance the transition at time `now`.  Returns the frame to draw, an
    /// error from the generator, or `None` once the transition is complete;
    /// the state moves to `next_state`.  The caller is responsible for
    /// suspending until `next_deadline` between advances; an earlier call
    /// renders the same step again.
    pub fn next(&mut self, now: u64) -> (r: Option<RPiResult<PositionedImage>>)
        requires
            old(self).wf(),
        ensures
            final(self).wf(),
            *final(self) == old(self).next_state(now),
            r is None <==> old(self).finished_at(now),
            r matches Some(fr) ==> old(self).transition.frame_matches(
                old(self).from,
                old(self).to,
                old(self).render_step(now) as u32,
                fr,
            ),
    {
        let desired = self.calculate_current_step(now);
        if desired >= self.steps && self.rendered && self.step >= self.steps - 1 {
            return None;
        }
        proof {
            lemma_skip_bounds(*old(self), now);
        }
        let render: u32 = if desired <= self.steps - 1 {
            desired
        } else {
            self.steps - 1
        };
        let result = self.transition.frame(&self.from, &self.to, render);
        if !self.rendered {
            self.skipped_count = render;
        } else {
            let prev: u32 = if self.step <= self.steps - 1 {
                self.step
            } else {
                self.steps - 1
            };
            if render > prev + 1 {
                self.skipped_count = self.skipped_count + (render - prev - 1);
            }
        }
        self.step = desired;
        self.rendered = true;
        Some(result)
    }

    /// Create a transition from an image to itself, for effects that only
    /// read their source image.
    pub fn new_self(target: RawImage, transition: FrameGenerator, steps: u32, duration: u64) -> (r:
        RPiResult<Transition>)
        requires
            target.wf(),
            transition.wf(),
        ensures
            r is Ok <==> (steps >= 1 && duration as int / (steps as int) >= 1),
            r matches Err(e) ==> e is InvalidInput,
            r matches Ok(t) ==> {
                &&& t.wf()
                &&& crate::image::same_image(t.from, target)
                &&& crate::image::same_image(t.to, target)
                &&& t.transition == transition
                &&& t.steps == steps
                &&& t.step_duration == duration as int / (steps as int)
                &&& t.step == 0
                &&& t.start_time is None
                &&& !t.rendered
                &&& t.skipped_count == 0
            },
    {
        let copy = target.duplicate();
        Transition::new(copy, target, transition, steps, duration)
    }
}

/// The bookkeeping of an unfinished advance stays in bounds: the new skipped
/// count never passes the new step counter, which never passes the total.
proof fn lemma_skip_bounds(t: Transition, now: u64)
    requires
        t.wf(),
        !t.finished_at(now),
    ensures
        0 <= t.desired_step(now) <= t.steps,
        t.step <= t.desired_step(now),
        0 <= t.render_step(now) <= t.steps - 1,
        0 <= t.skipped_count + t.skip_increment(now) <= t.desired_step(now),
{
    vstd::arithmetic::div_mod::lemma_div_pos_is_pos(
        t.elapsed_at(now),
        t.step_duration as int,
    );
}

/// Monotonicity of the reported step: what `calculate_current_step` reports
/// is never below the driver's own bookkeeping, and with a monotone clock a
/// later query never reports less than an earlier one.
pub proof fn lemma_current_step_monotonic(t: Transition, now1: u64, now2: u64)
    requires
        t.wf(),
        now1 <= now2,
    ensures
        t.step <= t.desired_step(now1),
        t.desired_step(now1) <= t.desired_step(now2),
{
    vstd::arithmetic::div_mod::lemma_div_pos_is_pos(t.elapsed_at(now1), t.step_duration as int);
    vstd::arithmetic::div_mod::lemma_div_is_ordered(
        t.elapsed_at(now1),
        t.elapsed_at(now2),
        t.step_duration as int,
    );
}

/// The reported step also never regresses across an advance: whatever an
/// advance moved the counter to, a later query with a monotone clock reports
/// at least as much.  With `lemma_current_step_monotonic` this extends the
/// monotonicity of the report to any interleaving of queries and advances.
pub proof fn lemma_step_report_survives_advance(t: Transition, now1: u64, now2: u64)
    requires
        t.wf(),
        now1 <= now2,
    ensures
        t.next_state(now1).desired_step(now2) >= t.desired_step(now1),
{
    let t2 = t.next_state(now1);
    vstd::arithmetic::div_mod::lemma_div_pos_is_pos(t.elapsed_at(now1), t.step_duration as int);
    vstd::arithmetic::div_mod::lemma_div_pos_is_pos(t2.elapsed_at(now2), t.step_duration as int);
    vstd::arithmetic::div_mod::lemma_div_is_ordered(
        t2.elapsed_at(now1),
        t2.elapsed_at(now2),
        t.step_duration as int,
    );
    assert(t2.elapsed_at(now1) == t.elapsed_at(now1));
}

/// Completion is only reported after the final step was rendered: a driver
/// that is finished has rendered at least one frame, and the frame it
/// rendered last was the final step.
pub proof fn lemma_completion_needs_final_render(t: Transition, now: u64)
    requires
        t.wf(),
        t.finished_at(now),
    ensures
        t.rendered,
        t.last_rendered() == t.steps - 1,
{
}

/// Completion guarantee: once the clock has passed the whole schedule, an
/// unfinished driver renders the final step on its next advance, and the
/// advance after that reports completion — the final frame is never skipped,
/// however far the clock jumped.
pub proof fn lemma_completion(t: Transition, now1: u64, now2: u64)
    requires
        t.wf(),
        t.clock_step(now1) >= t.steps,
        now1 <= now2,
    ensures
        !t.finished_at(now1) ==> t.render_step(now1) == t.steps - 1,
        t.next_state(now1).finished_at(now2),
{
    let t2 = t.next_state(now1);
    vstd::arithmetic::div_mod::lemma_div_pos_is_pos(t.elapsed_at(now1), t.step_duration as int);
    assert(t.elapsed_at(now1) >= t.steps * t.step_duration) by {
        vstd::arithmetic::div_mod::lemma_fundamental_div_mod(
            t.elapsed_at(now1),
            t.step_duration as int,
        );
        vstd::arithmetic::div_mod::lemma_mod_bound(t.elapsed_at(now1), t.step_duration as int);
        vstd::arithmetic::mul::lemma_mul_inequality(
            t.steps as int,
            t.clock_step(now1),
            t.step_duration as int,
        );
        vstd::arithmetic::mul::lemma_mul_is_commutative(t.clock_step(now1), t.step_duration as int);
    };
    assert(t.elapsed_at(now1) > 0) by {
        vstd::arithmetic::mul::lemma_mul_strictly_positive(t.steps as int, t.step_duration as int);
    };
    assert(t2.elapsed_at(now2) >= t.elapsed_at(now1));
    vstd::arithmetic::div_mod::lemma_div_is_ordered(
        t.elapsed_at(now1),
        t2.elapsed_at(now2),
        t.step_duration as int,
    );
}

/// No backward steps: when the caller suspends until the next deadline
/// between advances, as the driver's run loop does, any two consecutive
/// renders within one run use strictly increasing step indices.
pub proof fn lemma_no_backward_steps(t: Transition, now1: u64, now2: u64)
    requires
        t.wf(),
        !t.finished_at(now1),
        now2 >= t.next_state(now1).deadline_spec(t.next_state(now1).step + 1),
        !t.next_state(now1).finished_at(now2),
    ensures
        t.next_state(now1).render_step(now2) > t.render_step(now1),
{
    let t2 = t.next_state(now1);
    let dur = t.step_duration as int;
    let s0 = t.start_at(now1) as int;
    assert(t2.start() == s0);
    assert(now2 - s0 >= dur * (t2.step + 1));
    assert(t2.elapsed_at(now2) >= dur * (t2.step + 1)) by {
        vstd::arithmetic::mul::lemma_mul_strictly_positive(dur, t2.step + 1);
    };
    assert(t2.clock_step(now2) >= t2.step + 1) by {
        vstd::arithmetic::div_mod::lemma_div_is_ordered(
            dur * (t2.step + 1),
            t2.elapsed_at(now2),
            dur,
        );
        vstd::arithmetic::div_mod::lemma_div_multiples_vanish(t2.step + 1, dur);
    };
    lemma_skip_bounds(t, now1);
}

/// Frame-skip accounting: an advance renders exactly one frame, and when the
/// clock jumped so that the rendered step `r` passes over steps between it
/// and the previously rendered step `p`, the skipped count grows by exactly
/// the `r - p - 1` steps passed over, and by nothing otherwise.
pub proof fn lemma_frame_skip(t: Transition, now: u64)
    requires
        t.wf(),
        t.rendered,
        !t.finished_at(now),
    ensures
        ({
            let p = t.last_rendered();
            let r = t.render_step(now);
            t.next_state(now).skipped_count == t.skipped_count + (if r > p + 1 {
                r - p - 1
            } else {
                0
            })
        }),
{
    lemma_skip_bounds(t, now);
}

} // verus!
