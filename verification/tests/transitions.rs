//! Driving a transition against a simulated clock.

use rpi_display::errors::RPiError;
use rpi_display::image::RawImage;
use rpi_display::sweep::{sweep, SweepDirection};
use rpi_display::transition::Transition;

fn frame_image(width: u32, height: u32) -> RawImage {
    let pixels = vec![0u16; (width * height) as usize];
    RawImage::from_pixels(pixels, width, height).unwrap()
}

fn sweep_transition(steps: u32, duration: u64) -> Transition {
    let from = frame_image(8, 4);
    let to = frame_image(8, 4);
    let gen = sweep(steps, SweepDirection::FromLeft).unwrap();
    Transition::new(from, to, gen, steps, duration).unwrap()
}

#[test]
fn zero_steps_is_invalid_input() {
    let from = frame_image(8, 4);
    let to = frame_image(8, 4);
    let gen = sweep(4, SweepDirection::FromLeft).unwrap();
    let result = Transition::new(from, to, gen, 0, 400);
    assert!(matches!(result, Err(RPiError::InvalidInput(_, _))));
}

#[test]
fn too_short_duration_is_invalid_input() {
    let from = frame_image(8, 4);
    let to = frame_image(8, 4);
    let gen = sweep(4, SweepDirection::FromLeft).unwrap();
    let result = Transition::new(from, to, gen, 4, 3);
    assert!(matches!(result, Err(RPiError::InvalidInput(_, _))));
}

#[test]
fn step_duration_is_duration_over_steps() {
    let t = sweep_transition(4, 400);
    assert_eq!(t.step_duration, 100);
    assert_eq!(t.step, 0);
    assert_eq!(t.skipped_count, 0);
    assert!(t.start_time.is_none());
}

#[test]
fn start_time_is_captured_exactly_once() {
    let mut t = sweep_transition(4, 400);
    assert_eq!(t.start_time(70), 70);
    assert_eq!(t.start_time(300), 70);
    assert_eq!(t.start_time(5), 70);
    assert_eq!(t.start_time, Some(70));
}

#[test]
fn current_step_is_monotone_in_the_clock() {
    let mut t = sweep_transition(10, 1000);
    t.start_time(0);
    let mut last = 0;
    for now in [0u64, 1, 99, 100, 100, 250, 250, 251, 999, 1000, 5000] {
        let step = t.calculate_current_step(now);
        assert!(step >= last, "step regressed from {last} to {step} at {now}");
        last = step;
    }
}

#[test]
fn current_step_never_falls_below_bookkeeping() {
    let mut t = sweep_transition(10, 1000);
    t.start_time(0);
    t.next(450);
    assert_eq!(t.step, 4);
    // Asking again within the same millisecond reports the same step.
    assert_eq!(t.calculate_current_step(450), 4);
    assert_eq!(t.calculate_current_step(451), 4);
}

#[test]
fn jump_to_250ms_renders_step_2_and_skips_2() {
    // 4 steps over 400 ms; the clock jumps straight to 250 ms.
    let mut t = sweep_transition(4, 400);
    t.start_time(0);
    let frame = t.next(250).expect("not finished").expect("generator ok");
    // floor(250 / 100) = 2, and the sweep reveals (2 + 1) / 4 of 8 columns.
    assert_eq!(frame.image.width, 6);
    assert_eq!(t.step, 2);
    assert_eq!(t.skipped_count, 2);
}

#[test]
fn first_frame_at_step_zero_skips_nothing() {
    let mut t = sweep_transition(4, 400);
    let frame = t.next(0).expect("not finished").expect("generator ok");
    assert_eq!(frame.image.width, 2);
    assert_eq!(t.step, 0);
    assert_eq!(t.skipped_count, 0);
}

#[test]
fn paced_run_renders_strictly_increasing_steps() {
    let steps = 10u32;
    let mut t = sweep_transition(steps, 1000);
    let mut widths: Vec<u32> = Vec::new();
    let mut rendered_steps: Vec<u32> = Vec::new();
    let mut now = 0u64;
    loop {
        match t.next(now) {
            None => break,
            Some(result) => {
                let frame = result.expect("generator ok");
                widths.push(frame.image.width);
                // Under pacing, the counter equals the step just rendered.
                rendered_steps.push(t.step);
                now = t.next_deadline() as u64;
            }
        }
    }
    // Every step is rendered exactly once, in strictly increasing order.
    assert_eq!(rendered_steps, (0..steps).collect::<Vec<u32>>());
    // One frame per step, 8 * (s + 1) / 10 columns each.
    assert_eq!(widths, vec![0, 1, 2, 3, 4, 4, 5, 6, 7, 8]);
    assert_eq!(t.skipped_count, 0);
    assert_eq!(t.step, steps - 1);
}

#[test]
fn final_step_is_rendered_even_when_clock_jumps_past_end() {
    let mut t = sweep_transition(4, 400);
    t.start_time(0);
    // The clock jumps far beyond the end of the schedule on the first poll.
    let frame = t.next(10_000).expect("not finished").expect("generator ok");
    // The final step (3 of 4) is rendered: the sweep is fully revealed.
    assert_eq!(frame.image.width, 8);
    assert_eq!(t.skipped_count, 3);
    // The transition is complete from the next advance on.
    assert!(t.next(10_000).is_none());
    assert!(t.next(20_000).is_none());
}

#[test]
fn frame_skip_counts_the_steps_passed_over() {
    let mut t = sweep_transition(10, 1000);
    t.start_time(0);
    t.next(0); // renders step 0
    assert_eq!(t.skipped_count, 0);
    t.next(500); // renders step 5, skipping 1, 2, 3, 4
    assert_eq!(t.step, 5);
    assert_eq!(t.skipped_count, 4);
    t.next(600); // renders step 6: consecutive, nothing skipped
    assert_eq!(t.step, 6);
    assert_eq!(t.skipped_count, 4);
}

#[test]
fn completed_driver_stays_completed() {
    let mut t = sweep_transition(2, 200);
    t.start_time(0);
    assert!(t.next(0).is_some());
    assert!(t.next(100).is_some());
    assert!(t.next(200).is_none());
    assert!(t.next(90_000).is_none());
    assert_eq!(t.step, 1);
}

#[test]
fn single_step_transition_renders_once() {
    let mut t = sweep_transition(1, 50);
    t.start_time(0);
    let frame = t.next(0).expect("not finished").expect("generator ok");
    assert_eq!(frame.image.width, 8);
    assert!(t.next(50).is_none());
}

#[test]
fn deadlines_are_start_plus_step_multiples() {
    let mut t = sweep_transition(4, 400);
    t.start_time(30);
    assert_eq!(t.deadline(0), 30);
    assert_eq!(t.deadline(1), 130);
    assert_eq!(t.deadline(4), 430);
    assert_eq!(t.deadline(100), 10_030);
    t.next(30); // renders step 0
    assert_eq!(t.next_deadline(), 130);
}

#[test]
fn new_self_uses_the_same_picture_twice() {
    let target = frame_image(8, 4);
    let gen = sweep(4, SweepDirection::FromLeft).unwrap();
    let t = Transition::new_self(target, gen, 4, 400).unwrap();
    assert_eq!(t.from.pixels, t.to.pixels);
    assert_eq!(t.from.width, 8);
    assert_eq!(t.to.height, 4);
}
