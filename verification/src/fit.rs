//! Aspect-ratio-aware fitting: decide the output pixel dimensions from the
//! source size, the terminal box and the character cell aspect ratio, then
//! resample. The character cell shape is an exact ratio of integers, so the
//! whole computation is exact: the image is first stretched along the axis
//! the cell shape shortens, then scaled uniformly by the smaller of the two
//! axis scales so it always fits inside the box, and each target dimension
//! is truncated, never rounded, so the result is biased slightly smaller
//! and never exceeds the requested geometry.

use vstd::prelude::*;

use crate::raster::{sample_coord, Image};
use vstd::arithmetic::div_mod::{
    lemma_div_is_ordered, lemma_div_multiples_vanish, lemma_multiply_divide_lt,
};
use vstd::arithmetic::mul::{lemma_mul_strictly_positive, lemma_mul_upper_bound};

verus! {

/// The aspect ratio of one terminal character cell, width over height, as
/// an exact ratio of two positive integers. Most terminals draw cells
/// about twice as tall as wide, which is the ratio 1/2.
#[derive(Clone, Copy, PartialEq, Eq, Structural, Debug)]
pub struct AspectRatio {
    /// Cell width, in the same arbitrary unit as `den`.
    pub num: u32,
    /// Cell height.
    pub den: u32,
}

impl AspectRatio {
    /// Both parts of the ratio are positive.
    pub open spec fn wf(self) -> bool {
        self.num >= 1 && self.den >= 1
    }

    /// An exact ratio from its two parts; refused unless both are
    /// positive.
    pub fn new(num: u32, den: u32) -> (r: Option<AspectRatio>)
        ensures
            match r {
                Some(a) => a.wf() && a.num == num && a.den == den,
                None => num == 0 || den == 0,
            },
    {
        if num >= 1 && den >= 1 {
            Some(AspectRatio { num, den })
        } else {
            None
        }
    }
}

/// Numerator of the effective source width: with cells taller than wide
/// (aspect below one) horizontal pixel density must be boosted, so the
/// width is divided by the aspect ratio; otherwise it is left alone.
pub open spec fn eff_width_num(xi: int, an: int, ad: int) -> int {
    if an < ad {
        xi * ad
    } else {
        xi
    }
}

/// Denominator of the effective source width.
pub open spec fn eff_width_den(an: int, ad: int) -> int {
    if an < ad {
        an
    } else {
        1
    }
}

/// Numerator of the effective source height: with cells wider than tall
/// (aspect above one) the height is multiplied by the aspect ratio;
/// otherwise it is left alone.
pub open spec fn eff_height_num(yi: int, an: int, ad: int) -> int {
    if an > ad {
        yi * an
    } else {
        yi
    }
}

/// Denominator of the effective source height.
pub open spec fn eff_height_den(an: int, ad: int) -> int {
    if an > ad {
        ad
    } else {
        1
    }
}

/// Whether the horizontal scale `cols / effective_width` is strictly the
/// smaller of the two axis scales, compared exactly by cross
/// multiplication.
pub open spec fn width_scale_smaller(xi: int, yi: int, cols: int, rows: int, an: int, ad: int) -> bool {
    cols * eff_width_den(an, ad) * eff_height_num(yi, an, ad) < rows * eff_height_den(an, ad)
        * eff_width_num(xi, an, ad)
}

/// The fitted width: `floor(effective_width * scale)` for
/// `scale = min(cols / effective_width, rows / effective_height)`. When
/// the horizontal scale is the smaller one this is exactly `cols`;
/// otherwise it is the width scaled by the vertical scale, truncated.
pub open spec fn spec_fit_width(xi: int, yi: int, cols: int, rows: int, an: int, ad: int) -> int {
    if width_scale_smaller(xi, yi, cols, rows, an, ad) {
        cols
    } else {
        (eff_width_num(xi, an, ad) * rows * eff_height_den(an, ad)) / (eff_width_den(an, ad)
            * eff_height_num(yi, an, ad))
    }
}

/// The fitted height, the same way around.
pub open spec fn spec_fit_height(xi: int, yi: int, cols: int, rows: int, an: int, ad: int) -> int {
    if width_scale_smaller(xi, yi, cols, rows, an, ad) {
        (eff_height_num(yi, an, ad) * cols * eff_width_den(an, ad)) / (eff_height_den(an, ad)
            * eff_width_num(xi, an, ad))
    } else {
        rows
    }
}

/// The product chains the fitter computes all stay comfortably inside 128
/// bits, and the divisors are positive.
proof fn lemma_fit_products(ewn: int, ewd: int, ehn: int, ehd: int, cols: int, rows: int)
    by (nonlinear_arith)
    requires
        1 <= ewn <= 0xFFFF_FFFE_0000_0001,
        1 <= ewd <= 0xFFFF_FFFF,
        1 <= ehn <= 0xFFFF_FFFE_0000_0001,
        1 <= ehd <= 0xFFFF_FFFF,
        1 <= cols <= 0xFFFF_FFFF,
        1 <= rows <= 0xFFFF_FFFF,
    ensures
        cols * ewd * ehn <= 0xFFFF_FFFF_FFFF_FFFF_FFFF_FFFF_FFFF_FFFF,
        rows * ehd * ewn <= 0xFFFF_FFFF_FFFF_FFFF_FFFF_FFFF_FFFF_FFFF,
        ehn * cols * ewd <= 0xFFFF_FFFF_FFFF_FFFF_FFFF_FFFF_FFFF_FFFF,
        ewn * rows * ehd <= 0xFFFF_FFFF_FFFF_FFFF_FFFF_FFFF_FFFF_FFFF,
        1 <= ehd * ewn <= 0xFFFF_FFFF_FFFF_FFFF_FFFF_FFFF_FFFF_FFFF,
        1 <= ewd * ehn <= 0xFFFF_FFFF_FFFF_FFFF_FFFF_FFFF_FFFF_FFFF,
        cols * ewd <= 0xFFFF_FFFE_0000_0001,
        rows * ehd <= 0xFFFF_FFFE_0000_0001,
        ehn * cols <= 0xFFFF_FFFE_0000_0001_0000_0000,
        ewn * rows <= 0xFFFF_FFFE_0000_0001_0000_0000,
        ehn * cols * ewd == cols * ewd * ehn,
        ewn * rows * ehd == rows * ehd * ewn,
        (ehd * ewn) * rows == rows * ehd * ewn,
        (ewd * ehn) * cols == cols * ewd * ehn,
{
}

/// Compute the fitted dimensions for a source of `xi` by `yi` pixels, a
/// box of `cols` by `rows` cells and the given cell aspect ratio. Either
/// result may be zero for extreme combinations; that is a valid empty
/// render, not an error. Neither result ever exceeds its box dimension.
pub fn fit_dimensions(xi: u32, yi: u32, cols: u32, rows: u32, aspect: AspectRatio) -> (dims: (
    u32,
    u32,
))
    requires
        xi >= 1,
        yi >= 1,
        cols >= 1,
        rows >= 1,
        aspect.wf(),
    ensures
        dims.0 == spec_fit_width(
            xi as int,
            yi as int,
            cols as int,
            rows as int,
            aspect.num as int,
            aspect.den as int,
        ),
        dims.1 == spec_fit_height(
            xi as int,
            yi as int,
            cols as int,
            rows as int,
            aspect.num as int,
            aspect.den as int,
        ),
        dims.0 <= cols,
        dims.1 <= rows,
{
    let an = aspect.num;
    let ad = aspect.den;
    proof {
        lemma_mul_upper_bound(xi as int, 0xFFFF_FFFF, ad as int, 0xFFFF_FFFF);
        lemma_mul_upper_bound(yi as int, 0xFFFF_FFFF, an as int, 0xFFFF_FFFF);
        lemma_mul_strictly_positive(xi as int, ad as int);
        lemma_mul_strictly_positive(yi as int, an as int);
    }
    let (ewn, ewd): (u128, u128) = if an < ad {
        ((xi as u128) * (ad as u128), an as u128)
    } else {
        (xi as u128, 1)
    };
    let (ehn, ehd): (u128, u128) = if an > ad {
        ((yi as u128) * (an as u128), ad as u128)
    } else {
        (yi as u128, 1)
    };
    proof {
        assert(ewn == eff_width_num(xi as int, an as int, ad as int));
        assert(ewd == eff_width_den(an as int, ad as int));
        assert(ehn == eff_height_num(yi as int, an as int, ad as int));
        assert(ehd == eff_height_den(an as int, ad as int));
        lemma_fit_products(ewn as int, ewd as int, ehn as int, ehd as int, cols as int, rows as int);
    }
    let lhs: u128 = (cols as u128) * ewd * ehn;
    let rhs: u128 = (rows as u128) * ehd * ewn;
    if lhs < rhs {
        // Width-limited: the image spans the full column count and the
        // height is scaled by the same factor, truncated.
        let num: u128 = ehn * (cols as u128) * ewd;
        let den: u128 = ehd * ewn;
        let yf: u128 = num / den;
        proof {
            lemma_multiply_divide_lt(num as int, den as int, rows as int);
        }
        (cols, yf as u32)
    } else {
        // Height-limited: the image spans the full row count and the
        // width is scaled by the same factor, truncated.
        let num: u128 = ewn * (rows as u128) * ehd;
        let den: u128 = ewd * ehn;
        let xf: u128 = num / den;
        proof {
            lemma_div_is_ordered(num as int, (den as int) * (cols as int), den as int);
            lemma_div_multiples_vanish(cols as int, den as int);
        }
        (xf as u32, rows)
    }
}

/// The plain resize-into-a-box width: the uniform scale is the smaller of
/// `cols / xi` and `rows / yi`, with truncation.
pub open spec fn spec_plain_fit_width(xi: int, yi: int, cols: int, rows: int) -> int {
    if cols * yi < rows * xi {
        cols
    } else {
        (xi * rows) / yi
    }
}

/// The plain resize-into-a-box height.
pub open spec fn spec_plain_fit_height(xi: int, yi: int, cols: int, rows: int) -> int {
    if cols * yi < rows * xi {
        (yi * cols) / xi
    } else {
        rows
    }
}

/// With square character cells (aspect exactly one) and a square terminal
/// box, fitting needs no correction: it reduces to a plain resize into
/// that box.
pub proof fn lemma_square_cells_plain_resize(
    xi: int,
    yi: int,
    cols: int,
    rows: int,
    an: int,
    ad: int,
)
    requires
        xi >= 1,
        yi >= 1,
        cols >= 1,
        rows >= 1,
        an >= 1,
        ad >= 1,
        an == ad,
        cols == rows,
    ensures
        spec_fit_width(xi, yi, cols, rows, an, ad) == spec_plain_fit_width(xi, yi, cols, rows),
        spec_fit_height(xi, yi, cols, rows, an, ad) == spec_plain_fit_height(xi, yi, cols, rows),
{
    assert(eff_width_num(xi, an, ad) == xi);
    assert(eff_height_num(yi, an, ad) == yi);
}

/// Fit an image into a terminal box: compute the fitted dimensions, then
/// resample to them with nearest-neighbor interpolation. The result never
/// exceeds the box on either axis, and may be empty.
pub fn fit(img: &Image, cols: u32, rows: u32, aspect: AspectRatio) -> (out: Image)
    requires
        img.wf(),
        img.spec_width() >= 1,
        img.spec_height() >= 1,
        cols >= 1,
        rows >= 1,
        aspect.wf(),
    ensures
        out.wf(),
        out.spec_width() == spec_fit_width(
            img.spec_width(),
            img.spec_height(),
            cols as int,
            rows as int,
            aspect.num as int,
            aspect.den as int,
        ),
        out.spec_height() == spec_fit_height(
            img.spec_width(),
            img.spec_height(),
            cols as int,
            rows as int,
            aspect.num as int,
            aspect.den as int,
        ),
        out.spec_width() <= cols,
        out.spec_height() <= rows,
        forall|x: int, y: int|
            0 <= x < out.spec_width() && 0 <= y < out.spec_height() ==> out.spec_pixel(x, y)
                == img.spec_pixel(
                sample_coord(x, out.spec_width(), img.spec_width()),
                sample_coord(y, out.spec_height(), img.spec_height()),
            ),
{
    let (w, h) = fit_dimensions(img.width(), img.height(), cols, rows, aspect);
    img.resample(w, h)
}

} // verus!
