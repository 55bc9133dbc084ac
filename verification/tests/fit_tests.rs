use river::color::Color;
use river::fit::{fit, fit_dimensions, AspectRatio};
use river::raster::Image;

fn c(r: u8, g: u8, b: u8) -> Color {
    Color { r, g, b, a: 255 }
}

fn gray_image(w: u32, h: u32) -> Image {
    let mut pixels = Vec::new();
    for _ in 0..(w as usize) * (h as usize) {
        pixels.push(c(100, 100, 100));
    }
    Image::new(w, h, pixels).unwrap()
}

#[test]
fn scenario_narrow_cells() {
    // A 100x50 image in an 80x24 box with aspect 1/2: the effective
    // source size is (200, 50); the scales are 0.4 and 0.48; the smaller
    // one wins; the target is (floor(200 * 0.4), floor(50 * 0.4)) = (80, 20).
    let a = AspectRatio::new(1, 2).unwrap();
    assert_eq!(fit_dimensions(100, 50, 80, 24, a), (80, 20));
}

#[test]
fn fitted_never_exceeds_box() {
    let cases = vec![
        (100u32, 50u32, 80u32, 24u32, 1u32, 2u32),
        (1, 1, 80, 24, 1, 1),
        (1920, 1080, 80, 24, 1, 2),
        (3, 7, 11, 13, 7, 3),
        (500, 2, 10, 10, 2, 1),
        (2, 500, 10, 10, 2, 1),
    ];
    for (xi, yi, cols, rows, an, ad) in cases {
        let a = AspectRatio::new(an, ad).unwrap();
        let (w, h) = fit_dimensions(xi, yi, cols, rows, a);
        assert!(w <= cols);
        assert!(h <= rows);
    }
}

#[test]
fn square_cells_square_box_is_plain_resize() {
    // Aspect 1 and a square box: no correction, just a resize into the
    // box by the smaller axis scale, truncated.
    let a = AspectRatio::new(1, 1).unwrap();
    // Width-limited: scale 30/100, so (30, floor(50 * 0.3)) = (30, 15).
    assert_eq!(fit_dimensions(100, 50, 30, 30, a), (30, 15));
    // 100x50 in 12x12: scales are 0.12 and 0.24; the width scale wins:
    // (12, floor(50 * 0.12)) = (12, 6).
    assert_eq!(fit_dimensions(100, 50, 12, 12, a), (12, 6));
    // An exact fit stays put.
    assert_eq!(fit_dimensions(2, 2, 2, 2, a), (2, 2));
}

#[test]
fn aspect_value_not_representation_matters() {
    // 1/2 and 5000/10000 are the same ratio and must fit identically.
    let a = AspectRatio::new(1, 2).unwrap();
    let b = AspectRatio::new(5000, 10000).unwrap();
    assert_eq!(fit_dimensions(100, 50, 80, 24, a), fit_dimensions(100, 50, 80, 24, b));
    assert_eq!(fit_dimensions(37, 91, 133, 47, a), fit_dimensions(37, 91, 133, 47, b));
}

#[test]
fn wide_cells_boost_height() {
    // Aspect 2/1: the effective source size of a 100x50 image is
    // (100, 100); in an 80x24 box the vertical scale 0.24 wins:
    // (floor(100 * 0.24), 24) = (24, 24).
    let a = AspectRatio::new(2, 1).unwrap();
    assert_eq!(fit_dimensions(100, 50, 80, 24, a), (24, 24));
}

#[test]
fn upscaling_small_images() {
    let a = AspectRatio::new(1, 1).unwrap();
    // A 2x2 image in an 80x24 box scales up by 12.
    assert_eq!(fit_dimensions(2, 2, 80, 24, a), (24, 24));
}

#[test]
fn zero_dimension_is_a_valid_empty_result() {
    // A 1x1000 column in an 80x24 box: the vertical scale 0.024 wins and
    // the width truncates to zero. That is an empty render, not an error.
    let a = AspectRatio::new(1, 1).unwrap();
    assert_eq!(fit_dimensions(1, 1000, 80, 24, a), (0, 24));
    let img = gray_image(1, 1000);
    let out = fit(&img, 80, 24, a);
    assert_eq!(out.width(), 0);
    assert_eq!(out.height(), 24);
}

#[test]
fn resample_same_size_is_identity() {
    let pixels = vec![c(1, 2, 3), c(4, 5, 6), c(7, 8, 9), c(10, 11, 12)];
    let img = Image::new(2, 2, pixels.clone()).unwrap();
    let out = img.resample(2, 2);
    for y in 0..2u32 {
        for x in 0..2u32 {
            assert_eq!(out.pixel(x, y), pixels[(y * 2 + x) as usize]);
        }
    }
}

#[test]
fn resample_picks_nearest_source_pixel() {
    // Downscale 4x1 to 2x1: destination centers 0.5 and 1.5 map to
    // source centers at indexes 1 and 3.
    let pixels = vec![c(10, 0, 0), c(20, 0, 0), c(30, 0, 0), c(40, 0, 0)];
    let img = Image::new(4, 1, pixels).unwrap();
    let out = img.resample(2, 1);
    assert_eq!(out.pixel(0, 0), c(20, 0, 0));
    assert_eq!(out.pixel(1, 0), c(40, 0, 0));
    // Upscale 2x1 to 4x1: each source pixel appears twice.
    let pixels = vec![c(10, 0, 0), c(20, 0, 0)];
    let img = Image::new(2, 1, pixels).unwrap();
    let out = img.resample(4, 1);
    assert_eq!(out.pixel(0, 0), c(10, 0, 0));
    assert_eq!(out.pixel(1, 0), c(10, 0, 0));
    assert_eq!(out.pixel(2, 0), c(20, 0, 0));
    assert_eq!(out.pixel(3, 0), c(20, 0, 0));
}

#[test]
fn image_new_checks_buffer_size() {
    assert!(Image::new(2, 2, vec![c(0, 0, 0); 4]).is_some());
    assert!(Image::new(2, 2, vec![c(0, 0, 0); 3]).is_none());
    assert!(Image::new(3, 0, vec![]).is_some());
}

#[test]
fn aspect_ratio_rejects_zero_parts() {
    assert!(AspectRatio::new(0, 2).is_none());
    assert!(AspectRatio::new(2, 0).is_none());
    assert!(AspectRatio::new(1, 1).is_some());
}
