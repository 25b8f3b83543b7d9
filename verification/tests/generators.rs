//! The concrete frame generators and the image helpers they rest on.

use rpi_display::crop::{crop_horizontal, crop_raw, crop_raw_to, crop_vertical};
use rpi_display::dissolve::dissolve;
use rpi_display::errors::RPiError;
use rpi_display::generator::FrameGenerator;
use rpi_display::image::{image_from_raw, raw_from_bytes, RawImage};
use rpi_display::sweep::{sweep, sweep_region, SweepDirection};
use rpi_display::transverse::{transverse, transverse_pos};

/// An image whose pixel at (x, y) is x + 100 * y, for easy checking.
fn numbered_image(width: u32, height: u32) -> RawImage {
    let mut pixels = Vec::new();
    for y in 0..height {
        for x in 0..width {
            pixels.push((x + 100 * y) as u16);
        }
    }
    RawImage::from_pixels(pixels, width, height).unwrap()
}

fn solid_image(width: u32, height: u32, value: u16) -> RawImage {
    RawImage::from_pixels(vec![value; (width * height) as usize], width, height).unwrap()
}

#[test]
fn from_pixels_rejects_wrong_length() {
    assert!(matches!(
        RawImage::from_pixels(vec![0u16; 7], 4, 2),
        Err(RPiError::InvalidInput(_, _))
    ));
    assert!(RawImage::from_pixels(vec![0u16; 8], 4, 2).is_ok());
}

#[test]
fn raw_from_bytes_decodes_big_endian_words() {
    let bytes = vec![0x12, 0x34, 0xAB, 0xCD, 0x00, 0x01, 0xFF, 0x00];
    let img = raw_from_bytes(&bytes, 2).unwrap();
    assert_eq!(img.width, 2);
    assert_eq!(img.height, 2);
    assert_eq!(img.pixels, vec![0x1234, 0xABCD, 0x0001, 0xFF00]);
}

#[test]
fn raw_from_bytes_ignores_a_partial_row() {
    let bytes = vec![1, 2, 3, 4, 5, 6];
    let img = raw_from_bytes(&bytes, 2).unwrap();
    assert_eq!(img.height, 1);
    assert_eq!(img.pixels, vec![0x0102, 0x0304]);
}

#[test]
fn raw_from_bytes_rejects_zero_width() {
    assert!(matches!(
        raw_from_bytes(&vec![1, 2], 0),
        Err(RPiError::InvalidInput(_, _))
    ));
}

#[test]
fn image_from_raw_keeps_position() {
    let img = numbered_image(3, 2);
    let placed = image_from_raw(img, 5, -7);
    assert_eq!(placed.x, 5);
    assert_eq!(placed.y, -7);
    assert_eq!(placed.image.width, 3);
}

#[test]
fn crop_raw_copies_the_window() {
    let img = numbered_image(6, 4);
    let window = crop_raw(&img, 2, 1, 3, 2);
    assert_eq!(window.width, 3);
    assert_eq!(window.height, 2);
    assert_eq!(window.pixels, vec![102, 103, 104, 202, 203, 204]);
}

#[test]
fn crop_raw_clips_to_the_image() {
    let img = numbered_image(6, 4);
    let window = crop_raw(&img, 4, 3, 10, 10);
    assert_eq!(window.width, 2);
    assert_eq!(window.height, 1);
    assert_eq!(window.pixels, vec![304, 305]);
    let negative = crop_raw(&img, -3, -3, 2, 2);
    assert_eq!(negative.pixels, vec![0, 1, 100, 101]);
    let outside = crop_raw(&img, 9, 9, 2, 2);
    assert_eq!(outside.width, 0);
    assert_eq!(outside.height, 0);
}

#[test]
fn crop_raw_to_accepts_corners_in_either_order() {
    let img = numbered_image(6, 4);
    let a = crop_raw_to(&img, 1, 1, 3, 3);
    let b = crop_raw_to(&img, 3, 3, 1, 1);
    assert_eq!(a.pixels, vec![101, 102, 201, 202]);
    assert_eq!(a.pixels, b.pixels);
}

#[test]
fn crop_horizontal_keeps_full_height() {
    let img = numbered_image(6, 4);
    let cut = crop_horizontal(&img, 4, 100);
    assert_eq!(cut.width, 2);
    assert_eq!(cut.height, 4);
    assert_eq!(cut.pixels, vec![4, 5, 104, 105, 204, 205, 304, 305]);
}

#[test]
fn crop_vertical_keeps_full_width() {
    let img = numbered_image(6, 4);
    let cut = crop_vertical(&img, 3, 100);
    assert_eq!(cut.width, 6);
    assert_eq!(cut.height, 1);
    assert_eq!(cut.pixels, vec![300, 301, 302, 303, 304, 305]);
}

#[test]
fn sweep_direction_words() {
    assert_eq!(SweepDirection::FromLeft.direction(), "from left to right");
    assert_eq!(SweepDirection::FromRight.direction(), "from right to left");
    assert_eq!(SweepDirection::FromTop.direction(), "from top to bottom");
    assert_eq!(SweepDirection::FromBottom.direction(), "from bottom to top");
    assert_eq!(SweepDirection::InsideOut.direction(), "from inside to outside");
}

#[test]
fn sweep_from_left_boundary_values() {
    // At step 0 of 10 a tenth of the width is revealed; at the last step all
    // of it.
    let (x, y, w, h) = sweep_region(&SweepDirection::FromLeft, 0, 10, 100, 40);
    assert_eq!((x, y, w, h), (0, 0, 10, 40));
    let (x, y, w, h) = sweep_region(&SweepDirection::FromLeft, 9, 10, 100, 40);
    assert_eq!((x, y, w, h), (0, 0, 100, 40));
}

#[test]
fn sweep_regions_per_direction() {
    // Half-way: step 4 of 10 reveals half of each dimension.
    assert_eq!(sweep_region(&SweepDirection::FromRight, 4, 10, 100, 40), (50, 0, 50, 40));
    assert_eq!(sweep_region(&SweepDirection::FromTop, 4, 10, 100, 40), (0, 0, 100, 20));
    assert_eq!(sweep_region(&SweepDirection::FromBottom, 4, 10, 100, 40), (0, 20, 100, 20));
    assert_eq!(sweep_region(&SweepDirection::InsideOut, 4, 10, 100, 40), (25, 10, 50, 20));
}

#[test]
fn sweep_beyond_last_step_stays_fully_revealed() {
    assert_eq!(sweep_region(&SweepDirection::FromLeft, 42, 10, 100, 40), (0, 0, 100, 40));
}

#[test]
fn sweep_frame_draws_the_window_at_its_own_offset() {
    let from = numbered_image(8, 2);
    let to = numbered_image(8, 2);
    let gen = sweep(4, SweepDirection::FromRight).unwrap();
    let frame = gen.frame(&from, &to, 1).unwrap();
    // Step 1 of 4 reveals half of the 8 columns, from the right.
    assert_eq!(frame.x, 4);
    assert_eq!(frame.y, 0);
    assert_eq!(frame.image.width, 4);
    assert_eq!(frame.image.height, 2);
    assert_eq!(frame.image.pixels, vec![4, 5, 6, 7, 104, 105, 106, 107]);
}

#[test]
fn sweep_rejects_zero_steps() {
    assert!(matches!(
        sweep(0, SweepDirection::FromLeft),
        Err(RPiError::InvalidInput(_, _))
    ));
}

#[test]
fn transverse_pos_interpolates_between_the_endpoints() {
    assert_eq!(transverse_pos(0, 100, 0, 10), 0);
    assert_eq!(transverse_pos(0, 100, 4, 10), 40);
    assert_eq!(transverse_pos(0, 100, 10, 10), 100);
    // Moving backwards.
    assert_eq!(transverse_pos(100, 40, 5, 10), 70);
    // Beyond the last step the point stays at the end.
    assert_eq!(transverse_pos(0, 100, 25, 10), 100);
    // Rounding is toward the start.
    assert_eq!(transverse_pos(0, 10, 1, 3), 3);
}

#[test]
fn transverse_frame_pans_the_window() {
    let from = numbered_image(8, 2);
    let to = numbered_image(8, 2);
    let gen = transverse(4, 0, 0, 4, 0).unwrap();
    let frame = gen.frame(&from, &to, 2).unwrap();
    // Step 2 of 4: the window has moved 2 columns to the right; the window
    // keeps the source size and is clipped at the image's edge.
    assert_eq!(frame.x, 0);
    assert_eq!(frame.y, 0);
    assert_eq!(frame.image.width, 6);
    assert_eq!(frame.image.pixels, vec![2, 3, 4, 5, 6, 7, 102, 103, 104, 105, 106, 107]);
}

#[test]
fn transverse_rejects_zero_steps() {
    assert!(matches!(
        transverse(0, 0, 0, 1, 1),
        Err(RPiError::InvalidInput(_, _))
    ));
}

#[test]
fn dissolve_thresholds_are_drawn_below_the_step_total() {
    let gen = dissolve(64, 5).unwrap();
    match gen {
        FrameGenerator::Dissolve(d) => {
            assert_eq!(d.thresholds.len(), 64);
            assert_eq!(d.steps, 5);
            assert!(d.thresholds.iter().all(|&t| t < 5));
        }
        _ => panic!("dissolve built an unexpected generator"),
    }
}

#[test]
fn dissolve_rejects_zero_sizes() {
    assert!(matches!(dissolve(0, 5), Err(RPiError::InvalidInput(_, _))));
    assert!(matches!(dissolve(64, 0), Err(RPiError::InvalidInput(_, _))));
}

#[test]
fn dissolve_frame_selects_between_the_two_images() {
    let from = solid_image(4, 2, 1000);
    let to = solid_image(4, 2, 2000);
    let gen = dissolve(16, 6).unwrap();
    let thresholds = match &gen {
        FrameGenerator::Dissolve(d) => d.thresholds.clone(),
        _ => unreachable!(),
    };
    let frame = gen.frame(&from, &to, 3).unwrap();
    assert_eq!(frame.image.width, 4);
    assert_eq!(frame.image.height, 2);
    for (k, &px) in frame.image.pixels.iter().enumerate() {
        let expected = if thresholds[k % thresholds.len()] <= 3 { 2000 } else { 1000 };
        assert_eq!(px, expected);
    }
}

#[test]
fn dissolve_is_deterministic_within_one_instance() {
    let from = numbered_image(6, 3);
    let to = solid_image(6, 3, 9999);
    let gen = dissolve(8, 4).unwrap();
    for step in 0..4 {
        let first = gen.frame(&from, &to, step).unwrap();
        let second = gen.frame(&from, &to, step).unwrap();
        assert_eq!(first.image.pixels, second.image.pixels);
    }
}

#[test]
fn dissolve_completes_to_the_target_image() {
    let from = solid_image(4, 2, 1);
    let to = solid_image(4, 2, 2);
    let gen = dissolve(16, 6).unwrap();
    // At the last step every threshold (all below 6) has passed.
    let frame = gen.frame(&from, &to, 5).unwrap();
    assert_eq!(frame.image.pixels, vec![2; 8]);
}

#[test]
fn dissolve_rejects_mismatched_image_sizes() {
    let from = solid_image(4, 2, 1);
    let to = solid_image(2, 4, 2);
    let gen = dissolve(16, 6).unwrap();
    assert!(matches!(
        gen.frame(&from, &to, 0),
        Err(RPiError::InvalidInput(_, _))
    ));
}
