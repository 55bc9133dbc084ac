//! Pixel colors, the squared-distance metric used for quantization, and the
//! integer luma used for glyph bucketing.

use vstd::prelude::*;

verus! {

/// Largest possible squared RGB distance between two colors:
/// `3 * 255 * 255`.
pub const MAX_DIST2: u32 = 195075;

/// One pixel: 8-bit red, green, blue and alpha channels. Quantization
/// compares colors on (r, g, b) only; alpha is carried through untouched.
#[derive(Clone, Copy, PartialEq, Eq, Structural, Debug)]
pub struct Color {
    pub r: u8,
    pub g: u8,
    pub b: u8,
    pub a: u8,
}

/// The color with the given channels and full alpha, as every palette
/// entry has.
pub open spec fn rgb(r: u8, g: u8, b: u8) -> Color {
    Color { r, g, b, a: 255 }
}

/// Squared Euclidean distance between two colors in raw RGB space;
/// alpha is ignored.
pub open spec fn dist2(c1: Color, c2: Color) -> int {
    (c1.r - c2.r) * (c1.r - c2.r) + (c1.g - c2.g) * (c1.g - c2.g) + (c1.b - c2.b)
        * (c1.b - c2.b)
}

proof fn lemma_square_bounds(x: int, m: int)
    by (nonlinear_arith)
    requires
        -m <= x <= m,
        0 <= m,
    ensures
        0 <= x * x <= m * m,
{
}

/// The squared distance is never negative and never exceeds `MAX_DIST2`.
pub proof fn lemma_dist2_bounds(c1: Color, c2: Color)
    ensures
        0 <= dist2(c1, c2) <= MAX_DIST2,
{
    lemma_square_bounds(c1.r - c2.r, 255);
    lemma_square_bounds(c1.g - c2.g, 255);
    lemma_square_bounds(c1.b - c2.b, 255);
}

proof fn lemma_square_zero(x: int)
    by (nonlinear_arith)
    ensures
        x * x == 0 ==> x == 0,
        0 <= x * x,
{
}

/// Two colors are at squared distance zero exactly when their r, g and b
/// channels agree (alpha plays no part).
pub proof fn lemma_dist2_zero(c1: Color, c2: Color)
    ensures
        dist2(c1, c2) == 0 <==> (c1.r == c2.r && c1.g == c2.g && c1.b == c2.b),
{
    lemma_square_zero(c1.r - c2.r);
    lemma_square_zero(c1.g - c2.g);
    lemma_square_zero(c1.b - c2.b);
}

/// Squared Euclidean RGB distance between two colors.
pub fn color_dist2(c1: &Color, c2: &Color) -> (d: u32)
    ensures
        d == dist2(*c1, *c2),
        d <= MAX_DIST2,
{
    let dr: i32 = c1.r as i32 - c2.r as i32;
    let dg: i32 = c1.g as i32 - c2.g as i32;
    let db: i32 = c1.b as i32 - c2.b as i32;
    proof {
        lemma_square_bounds(dr as int, 255);
        lemma_square_bounds(dg as int, 255);
        lemma_square_bounds(db as int, 255);
    }
    (dr * dr + dg * dg + db * db) as u32
}

/// Integer luma of a color: the conventional weighted sum
/// `(299 r + 587 g + 114 b) / 1000`, truncated. Always in `0..=255`.
pub open spec fn luma_of(c: Color) -> int {
    (299 * c.r + 587 * c.g + 114 * c.b) / 1000
}

/// Perceptual gray level of a color, used to pick a glyph for it.
/// Always fits in a byte.
pub fn luma(c: &Color) -> (l: u8)
    ensures
        l == luma_of(*c),
{
    ((299 * (c.r as u32) + 587 * (c.g as u32) + 114 * (c.b as u32)) / 1000) as u8
}

} // verus!
