use river::color::{luma, Color};
use river::fit::AspectRatio;
use river::mode::{ConfigError, RenderMode};
use river::quantize::DitherStrategy;
use river::raster::Image;
use river::render::{render, render_named, Cell};

fn c(r: u8, g: u8, b: u8) -> Color {
    Color { r, g, b, a: 255 }
}

fn one_pixel(col: Color) -> Image {
    Image::new(1, 1, vec![col]).unwrap()
}

#[test]
fn scenario_pure_colors_in_ansi8() {
    // A 2x2 image of black, white, red and blue in a 2x2 box with square
    // cells keeps its size, and each pixel lands on the expected entry of
    // the 8-color palette: bright red is nearer the dim red literal
    // (128, 0, 0) than anything else, and likewise for blue.
    let img = Image::new(
        2,
        2,
        vec![c(0, 0, 0), c(255, 255, 255), c(255, 0, 0), c(0, 0, 255)],
    )
    .unwrap();
    let a = AspectRatio::new(1, 1).unwrap();
    let grid = render_named(&img, 2, 2, a, "8colors", DitherStrategy::Disabled).unwrap();
    assert_eq!(
        grid,
        vec![
            vec![Cell::Indexed(0), Cell::Indexed(7), Cell::Reset],
            vec![Cell::Indexed(1), Cell::Indexed(4), Cell::Reset],
        ]
    );
}

#[test]
fn scenario_luma_128_renders_light() {
    // The monochrome boundary is luma strictly below 128: a pixel whose
    // luma is exactly 128 renders the light glyph.
    let mid = c(128, 128, 128);
    assert_eq!(luma(&mid), 128);
    let grid = render(&one_pixel(mid), RenderMode::Monochrome, DitherStrategy::Disabled);
    assert_eq!(grid, vec![vec![Cell::Glyph(' ')]]);
    // One step darker is below the boundary and renders the dark glyph.
    let dark = c(127, 127, 127);
    assert_eq!(luma(&dark), 127);
    let grid = render(&one_pixel(dark), RenderMode::Monochrome, DitherStrategy::Disabled);
    assert_eq!(grid, vec![vec![Cell::Glyph('#')]]);
}

#[test]
fn scenario_unknown_mode_is_config_error() {
    // An unrecognized mode name fails with a configuration error and
    // renders nothing at all.
    let img = one_pixel(c(1, 2, 3));
    let a = AspectRatio::new(1, 2).unwrap();
    let r = render_named(&img, 80, 24, a, "technicolor", DitherStrategy::Disabled);
    assert_eq!(r, Err(ConfigError::UnknownMode));
    let r = render_named(&img, 80, 24, a, "", DitherStrategy::Disabled);
    assert_eq!(r, Err(ConfigError::UnknownMode));
}

#[test]
fn truecolor_passes_channels_through() {
    let grid = render(&one_pixel(c(12, 34, 56)), RenderMode::Truecolor, DitherStrategy::Disabled);
    assert_eq!(grid, vec![vec![Cell::Rgb(12, 34, 56), Cell::Reset]]);
}

#[test]
fn color_rows_end_with_reset_and_glyph_rows_do_not() {
    let img = Image::new(2, 1, vec![c(0, 0, 0), c(255, 255, 255)]).unwrap();
    for mode in vec![RenderMode::Ansi8, RenderMode::Ansi16, RenderMode::Ansi256,
        RenderMode::Truecolor] {
        let grid = render(&img, mode, DitherStrategy::Disabled);
        assert_eq!(grid.len(), 1);
        assert_eq!(grid[0].len(), 3);
        assert_eq!(grid[0][2], Cell::Reset);
    }
    for mode in vec![RenderMode::Monochrome, RenderMode::GrayRamp9, RenderMode::GrayRamp5] {
        let grid = render(&img, mode, DitherStrategy::Disabled);
        assert_eq!(grid.len(), 1);
        assert_eq!(grid[0].len(), 2);
        assert!(grid[0][1] != Cell::Reset);
    }
}

#[test]
fn gray_ramp_buckets_dark_to_light() {
    // Luma buckets are evenly spaced over 0..256; glyphs go densest to
    // blank as the pixel lightens.
    let cases9 = vec![
        (c(0, 0, 0), 'W'),
        (c(100, 100, 100), ';'),  // luma 100, bucket 100 * 9 / 256 = 3
        (c(128, 128, 128), ':'),  // bucket 4
        (c(255, 255, 255), ' '),  // bucket 8
    ];
    for (col, glyph) in cases9 {
        let grid = render(&one_pixel(col), RenderMode::GrayRamp9, DitherStrategy::Disabled);
        assert_eq!(grid, vec![vec![Cell::Glyph(glyph)]]);
    }
    let cases5 = vec![
        (c(0, 0, 0), 'W'),
        (c(100, 100, 100), 'O'),  // bucket 100 * 5 / 256 = 1
        (c(128, 128, 128), 'o'),  // bucket 2
        (c(255, 255, 255), ' '),  // bucket 4
    ];
    for (col, glyph) in cases5 {
        let grid = render(&one_pixel(col), RenderMode::GrayRamp5, DitherStrategy::Disabled);
        assert_eq!(grid, vec![vec![Cell::Glyph(glyph)]]);
    }
}

#[test]
fn luma_uses_conventional_weights() {
    // (299 r + 587 g + 114 b) / 1000, truncated.
    assert_eq!(luma(&c(255, 0, 0)), 76);
    assert_eq!(luma(&c(0, 255, 0)), 149);
    assert_eq!(luma(&c(0, 0, 255)), 29);
    assert_eq!(luma(&c(255, 255, 255)), 255);
    assert_eq!(luma(&c(0, 0, 0)), 0);
}

#[test]
fn ansi256_exact_cube_color_maps_to_its_entry() {
    // (95, 135, 175) is exactly the cube entry at channel levels
    // (1, 2, 3), which lives at index 16 + 36 + 12 + 3 = 67.
    let grid = render(&one_pixel(c(95, 135, 175)), RenderMode::Ansi256, DitherStrategy::Disabled);
    assert_eq!(grid, vec![vec![Cell::Indexed(67), Cell::Reset]]);
    // The pure grayscale step 10 * 10 + 8 = 108 lives at index 232 + 10.
    let grid = render(&one_pixel(c(108, 108, 108)), RenderMode::Ansi256, DitherStrategy::Disabled);
    assert_eq!(grid, vec![vec![Cell::Indexed(242), Cell::Reset]]);
}

#[test]
fn empty_fit_renders_empty_rows() {
    // A fitted width of zero renders as empty rows: a valid empty
    // result, not an error.
    let mut pixels = Vec::new();
    for _ in 0..1000 {
        pixels.push(c(9, 9, 9));
    }
    let img = Image::new(1, 1000, pixels).unwrap();
    let a = AspectRatio::new(1, 1).unwrap();
    let grid = render_named(&img, 80, 24, a, "pound", DitherStrategy::Disabled).unwrap();
    assert_eq!(grid.len(), 24);
    for row in grid {
        assert_eq!(row.len(), 0);
    }
}

#[test]
fn scenario_full_pipeline_with_narrow_cells() {
    // The 100x50 source in an 80x24 box with aspect 1/2 fits to (80, 20)
    // and renders one glyph per fitted pixel.
    let mut pixels = Vec::new();
    for _ in 0..100 * 50 {
        pixels.push(c(0, 0, 0));
    }
    let img = Image::new(100, 50, pixels).unwrap();
    let a = AspectRatio::new(1, 2).unwrap();
    let grid = render_named(&img, 80, 24, a, "ascii", DitherStrategy::Disabled).unwrap();
    assert_eq!(grid.len(), 20);
    for row in grid {
        assert_eq!(row.len(), 80);
        for cell in row {
            assert_eq!(cell, Cell::Glyph('W'));
        }
    }
}
