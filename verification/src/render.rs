//! The grid walk shared by every mode: one output row per image row, and
//! one symbol per column (a glyph picked by luma for the monochrome and
//! grayscale modes, a palette index for the ANSI color modes, the pixel's
//! own RGB for truecolor), with an explicit reset marker after the last
//! column of every color-mode row, so terminal color state never bleeds
//! past the right edge.

use vstd::prelude::*;

use crate::color::{luma, luma_of, Color};
use crate::fit::{fit, spec_fit_height, spec_fit_width, AspectRatio};
use crate::mode::{parse_mode, spec_parse_mode, ConfigError, RenderMode};
use crate::palette::{
    ansi16_palette, ansi256_palette, ansi8_palette, build_ansi16, build_ansi256, build_ansi8,
    spec_palette,
};
use crate::quantize::{nearest_in, quantize_image, DitherStrategy};
use crate::raster::{lemma_row_major_index, sample_coord, Image};

verus! {

/// One symbol of the output grid.
#[derive(Clone, Copy, PartialEq, Eq, Structural, Debug)]
pub enum Cell {
    /// A printable glyph, for the monochrome and grayscale modes.
    Glyph(char),
    /// A palette index, for the ANSI color modes; the index doubles as
    /// the terminal color code.
    Indexed(u8),
    /// A raw color, for truecolor.
    Rgb(u8, u8, u8),
    /// Restore the default terminal color; closes every color-mode row.
    Reset,
}

/// Whether a mode emits color cells, and so must reset the color after
/// the last column of each row.
pub open spec fn color_mode(mode: RenderMode) -> bool {
    match mode {
        RenderMode::Ansi8 | RenderMode::Ansi16 | RenderMode::Ansi256
            | RenderMode::Truecolor => true,
        _ => false,
    }
}

/// Whether a mode emits palette indices.
pub open spec fn indexed_mode(mode: RenderMode) -> bool {
    match mode {
        RenderMode::Ansi8 | RenderMode::Ansi16 | RenderMode::Ansi256 => true,
        _ => false,
    }
}

/// Glyph for bucket `b` of the nine-level ramp, densest for the darkest
/// bucket, blank for the lightest.
pub open spec fn glyph9(b: int) -> char {
    if b == 0 {
        'W'
    } else if b == 1 {
        'O'
    } else if b == 2 {
        'L'
    } else if b == 3 {
        ';'
    } else if b == 4 {
        ':'
    } else if b == 5 {
        '\''
    } else if b == 6 {
        '-'
    } else {
        ' '
    }
}

/// Glyph for bucket `b` of the five-level ramp.
pub open spec fn glyph5(b: int) -> char {
    if b == 0 {
        'W'
    } else if b == 1 {
        'O'
    } else if b == 2 {
        'o'
    } else if b == 3 {
        ':'
    } else {
        ' '
    }
}

/// The symbol a mode produces for one pixel. Monochrome splits at luma
/// strictly below 128: a luma of exactly 128 is light. The ramps bucket
/// luma into evenly spaced thresholds over 0..256. The ANSI modes emit
/// the index of the nearest palette entry, and truecolor passes the
/// pixel's channels straight through.
pub open spec fn spec_cell(mode: RenderMode, c: Color) -> Cell {
    match mode {
        RenderMode::Monochrome => Cell::Glyph(
            if luma_of(c) < 128 {
                '#'
            } else {
                ' '
            },
        ),
        RenderMode::GrayRamp9 => Cell::Glyph(glyph9(luma_of(c) * 9 / 256)),
        RenderMode::GrayRamp5 => Cell::Glyph(glyph5(luma_of(c) * 5 / 256)),
        RenderMode::Ansi8 => Cell::Indexed(nearest_in(ansi8_palette(), c) as u8),
        RenderMode::Ansi16 => Cell::Indexed(nearest_in(ansi16_palette(), c) as u8),
        RenderMode::Ansi256 => Cell::Indexed(nearest_in(ansi256_palette(), c) as u8),
        RenderMode::Truecolor => Cell::Rgb(c.r, c.g, c.b),
    }
}

/// Glyph for bucket `b` of the nine-level ramp.
fn glyph9_at(b: usize) -> (g: char)
    requires
        b < 9,
    ensures
        g == glyph9(b as int),
{
    if b == 0 {
        'W'
    } else if b == 1 {
        'O'
    } else if b == 2 {
        'L'
    } else if b == 3 {
        ';'
    } else if b == 4 {
        ':'
    } else if b == 5 {
        '\''
    } else if b == 6 {
        '-'
    } else {
        ' '
    }
}

/// Glyph for bucket `b` of the five-level ramp.
fn glyph5_at(b: usize) -> (g: char)
    requires
        b < 5,
    ensures
        g == glyph5(b as int),
{
    if b == 0 {
        'W'
    } else if b == 1 {
        'O'
    } else if b == 2 {
        'o'
    } else if b == 3 {
        ':'
    } else {
        ' '
    }
}

/// Render a fitted image: one row per image row; one cell per column,
/// each the mode's symbol for that pixel alone; and for color modes a
/// reset marker closing every row. An image with a zero dimension renders
/// to the corresponding empty grid.
pub fn render(img: &Image, mode: RenderMode, dither: DitherStrategy) -> (rows: Vec<Vec<Cell>>)
    requires
        img.wf(),
    ensures
        rows@.len() == img.spec_height(),
        forall|y: int|
            0 <= y < img.spec_height() ==> (#[trigger] rows@[y])@.len() == img.spec_width() + (
            if color_mode(mode) {
                1int
            } else {
                0int
            }),
        forall|x: int, y: int|
            0 <= x < img.spec_width() && 0 <= y < img.spec_height() ==> rows@[y]@[x] == spec_cell(
                mode,
                img.spec_pixel(x, y),
            ),
        forall|y: int|
            0 <= y < img.spec_height() && color_mode(mode) ==> rows@[y]@[img.spec_width()]
                == Cell::Reset,
{
    let w = img.width();
    let h = img.height();
    // The ANSI modes quantize the whole image against their palette
    // first; every other mode maps each pixel directly.
    let quantized: Vec<usize> = match mode {
        RenderMode::Ansi8 => quantize_image(img, &build_ansi8(), dither),
        RenderMode::Ansi16 => quantize_image(img, &build_ansi16(), dither),
        RenderMode::Ansi256 => quantize_image(img, &build_ansi256(), dither),
        _ => Vec::new(),
    };
    let is_color = match mode {
        RenderMode::Ansi8 | RenderMode::Ansi16 | RenderMode::Ansi256
            | RenderMode::Truecolor => true,
        _ => false,
    };
    let mut rows: Vec<Vec<Cell>> = Vec::new();
    let mut y: u32 = 0;
    while y < h
        invariant
            img.wf(),
            w == img.spec_width(),
            h == img.spec_height(),
            is_color == color_mode(mode),
            indexed_mode(mode) ==> {
                &&& quantized@.len() == h * w
                &&& forall|xx: int, yy: int|
                    0 <= xx < w && 0 <= yy < h ==> quantized@[yy * w + xx] == nearest_in(
                        spec_palette(mode),
                        img.spec_pixel(xx, yy),
                    )
            },
            y <= h,
            rows@.len() == y,
            forall|yy: int|
                0 <= yy < y ==> (#[trigger] rows@[yy])@.len() == w + (
                if color_mode(mode) {
                    1int
                } else {
                    0int
                }),
            forall|xx: int, yy: int|
                0 <= xx < w && 0 <= yy < y ==> rows@[yy]@[xx] == spec_cell(
                    mode,
                    img.spec_pixel(xx, yy),
                ),
            forall|yy: int|
                0 <= yy < y && color_mode(mode) ==> rows@[yy]@[w as int] == Cell::Reset,
        decreases h - y,
    {
        let mut row: Vec<Cell> = Vec::new();
        let mut x: u32 = 0;
        while x < w
            invariant
                img.wf(),
                w == img.spec_width(),
                h == img.spec_height(),
                indexed_mode(mode) ==> {
                    &&& quantized@.len() == h * w
                    &&& forall|xx: int, yy: int|
                        0 <= xx < w && 0 <= yy < h ==> quantized@[yy * w + xx] == nearest_in(
                            spec_palette(mode),
                            img.spec_pixel(xx, yy),
                        )
                },
                y < h,
                x <= w,
                row@.len() == x,
                forall|xx: int|
                    0 <= xx < x ==> row@[xx] == spec_cell(mode, img.spec_pixel(xx, y as int)),
            decreases w - x,
        {
            let cell: Cell = match mode {
                RenderMode::Monochrome => {
                    let l = luma(&img.pixel(x, y));
                    Cell::Glyph(
                        if l < 128 {
                            '#'
                        } else {
                            ' '
                        },
                    )
                },
                RenderMode::GrayRamp9 => {
                    let l = luma(&img.pixel(x, y));
                    Cell::Glyph(glyph9_at((l as usize) * 9 / 256))
                },
                RenderMode::GrayRamp5 => {
                    let l = luma(&img.pixel(x, y));
                    Cell::Glyph(glyph5_at((l as usize) * 5 / 256))
                },
                RenderMode::Ansi8 | RenderMode::Ansi16 | RenderMode::Ansi256 => {
                    let n = quantized.len();
                    proof {
                        lemma_row_major_index(x as int, y as int, w as int, h as int);
                        assert((y as int) * (w as int) + (x as int) < n as int);
                    }
                    Cell::Indexed(quantized[(y as usize) * (w as usize) + (x as usize)] as u8)
                },
                RenderMode::Truecolor => {
                    let c = img.pixel(x, y);
                    Cell::Rgb(c.r, c.g, c.b)
                },
            };
            row.push(cell);
            x = x + 1;
        }
        if is_color {
            row.push(Cell::Reset);
        }
        rows.push(row);
        y = y + 1;
    }
    rows
}

/// The source pixel that position (x, y) of the fitted grid shows, for a
/// source image fitted into a `cols` by `rows` box under the cell aspect
/// ratio `an / ad`.
pub open spec fn fitted_pixel(
    img: Image,
    cols: int,
    rows: int,
    an: int,
    ad: int,
    x: int,
    y: int,
) -> Color {
    img.spec_pixel(
        sample_coord(x, spec_fit_width(img.spec_width(), img.spec_height(), cols, rows, an, ad), img.spec_width()),
        sample_coord(y, spec_fit_height(img.spec_width(), img.spec_height(), cols, rows, an, ad), img.spec_height()),
    )
}

/// What a finished grid looks like for a source image, terminal box,
/// aspect ratio and mode: fitted height rows; fitted width cells per row
/// plus the reset marker in color modes; and each cell the mode's symbol
/// for the source pixel that position samples.
pub open spec fn grid_ok(
    grid: Seq<Vec<Cell>>,
    img: Image,
    cols: int,
    rows: int,
    an: int,
    ad: int,
    mode: RenderMode,
) -> bool {
    let fw = spec_fit_width(img.spec_width(), img.spec_height(), cols, rows, an, ad);
    let fh = spec_fit_height(img.spec_width(), img.spec_height(), cols, rows, an, ad);
    &&& grid.len() == fh
    &&& forall|y: int|
        0 <= y < fh ==> (#[trigger] grid[y])@.len() == fw + (
        if color_mode(mode) {
            1int
        } else {
            0int
        })
    &&& forall|x: int, y: int|
        0 <= x < fw && 0 <= y < fh ==> grid[y]@[x] == spec_cell(
            mode,
            fitted_pixel(img, cols, rows, an, ad, x, y),
        )
    &&& forall|y: int| 0 <= y < fh && color_mode(mode) ==> grid[y]@[fw] == Cell::Reset
}

/// The whole pipeline: resolve the mode name, fit the image into the
/// terminal box, and render it. A name outside the mode set is a
/// configuration error: it is reported and nothing at all is rendered.
pub fn render_named(
    img: &Image,
    cols: u32,
    rows: u32,
    aspect: AspectRatio,
    mode_name: &str,
    dither: DitherStrategy,
) -> (r: Result<Vec<Vec<Cell>>, ConfigError>)
    requires
        img.wf(),
        img.spec_width() >= 1,
        img.spec_height() >= 1,
        cols >= 1,
        rows >= 1,
        aspect.wf(),
    ensures
        match r {
            Ok(grid) => {
                &&& spec_parse_mode(mode_name@) is Some
                &&& grid_ok(
                    grid@,
                    *img,
                    cols as int,
                    rows as int,
                    aspect.num as int,
                    aspect.den as int,
                    spec_parse_mode(mode_name@).unwrap(),
                )
            },
            Err(e) => spec_parse_mode(mode_name@) is None && e == ConfigError::UnknownMode,
        },
{
    let mode = match parse_mode(mode_name) {
        Ok(m) => m,
        Err(e) => {
            return Err(e);
        },
    };
    let fitted = fit(img, cols, rows, aspect);
    let grid = render(&fitted, mode, dither);
    proof {
        let an = aspect.num as int;
        let ad = aspect.den as int;
        let fw = spec_fit_width(
            img.spec_width(),
            img.spec_height(),
            cols as int,
            rows as int,
            an,
            ad,
        );
        let fh = spec_fit_height(
            img.spec_width(),
            img.spec_height(),
            cols as int,
            rows as int,
            an,
            ad,
        );
        assert(grid@.len() == fh);
        assert forall|x: int, y: int| 0 <= x < fw && 0 <= y < fh implies grid@[y]@[x] == spec_cell(
            mode,
            fitted_pixel(*img, cols as int, rows as int, an, ad, x, y),
        ) by {
            assert(fitted.spec_pixel(x, y) == fitted_pixel(*img, cols as int, rows as int, an, ad, x, y));
        }
        assert(grid_ok(grid@, *img, cols as int, rows as int, an, ad, mode));
    }
    Ok(grid)
}

} // verus!
