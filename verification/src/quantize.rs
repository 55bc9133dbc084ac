//! Palette quantization: map a color to the index of the nearest palette
//! entry by squared Euclidean RGB distance, ties going to the lowest index.

use vstd::prelude::*;

use crate::color::{color_dist2, dist2, Color, MAX_DIST2};
use crate::raster::{lemma_row_major_index, Image};

verus! {

/// Index of the palette entry nearest to `c`: scanning in index order, an
/// entry replaces the best so far only when strictly closer, so the lowest
/// qualifying index wins every tie.
pub open spec fn nearest_in(p: Seq<Color>, c: Color) -> int
    decreases p.len(),
{
    if p.len() <= 1 {
        0
    } else {
        let prev = nearest_in(p.drop_last(), c);
        if dist2(p.last(), c) < dist2(p[prev], c) {
            p.len() - 1
        } else {
            prev
        }
    }
}

/// No palette entry is strictly closer to `c` than the chosen one, and
/// every entry before the chosen index is strictly farther away.
pub proof fn lemma_nearest_minimal(p: Seq<Color>, c: Color)
    requires
        p.len() > 0,
    ensures
        0 <= nearest_in(p, c) < p.len(),
        forall|j: int|
            0 <= j < p.len() ==> dist2(p[nearest_in(p, c)], c) <= #[trigger] dist2(p[j], c),
        forall|j: int|
            0 <= j < nearest_in(p, c) ==> #[trigger] dist2(p[j], c) > dist2(p[nearest_in(p, c)], c),
    decreases p.len(),
{
    if p.len() > 1 {
        lemma_nearest_minimal(p.drop_last(), c);
        assert(forall|j: int| 0 <= j < p.len() - 1 ==> p.drop_last()[j] == p[j]);
    }
}

/// The nearest index is the only index that is both a minimizer of the
/// distance and strictly closer than every earlier entry.
pub proof fn lemma_nearest_unique(p: Seq<Color>, c: Color, i: int)
    requires
        0 <= i < p.len(),
        forall|j: int| 0 <= j < p.len() ==> dist2(p[i], c) <= #[trigger] dist2(p[j], c),
        forall|j: int| 0 <= j < i ==> #[trigger] dist2(p[j], c) > dist2(p[i], c),
    ensures
        nearest_in(p, c) == i,
{
    let n = nearest_in(p, c);
    lemma_nearest_minimal(p, c);
    if n < i {
        assert(dist2(p[n], c) > dist2(p[i], c));
        assert(dist2(p[n], c) <= dist2(p[i], c));
    } else if i < n {
        assert(dist2(p[i], c) > dist2(p[n], c));
        assert(dist2(p[i], c) <= dist2(p[n], c));
    }
}

/// Quantizing is idempotent on palette colors: the entry chosen for any
/// color, quantized once more against the same palette, chooses itself.
pub proof fn lemma_quantize_idempotent(p: Seq<Color>, c: Color)
    requires
        p.len() > 0,
    ensures
        nearest_in(p, p[nearest_in(p, c)]) == nearest_in(p, c),
{
    let i = nearest_in(p, c);
    lemma_nearest_minimal(p, c);
    crate::color::lemma_dist2_zero(p[i], p[i]);
    assert forall|j: int| 0 <= j < p.len() implies dist2(p[i], p[i]) <= dist2(p[j], p[i]) by {
        crate::color::lemma_dist2_bounds(p[j], p[i]);
    }
    assert forall|j: int| 0 <= j < i implies dist2(p[j], p[i]) > dist2(p[i], p[i]) by {
        crate::color::lemma_dist2_bounds(p[j], p[i]);
        if dist2(p[j], p[i]) == 0 {
            crate::color::lemma_dist2_zero(p[j], p[i]);
            assert(dist2(p[j], c) == dist2(p[i], c));
        }
    }
    lemma_nearest_unique(p, p[i], i);
}

/// Index of the palette entry nearest to `c` in squared Euclidean RGB
/// distance; the first entry achieving the minimum wins. The best distance
/// starts above the largest possible one, so the first entry always
/// replaces it.
pub fn nearest(palette: &Vec<Color>, c: &Color) -> (i: usize)
    requires
        palette@.len() >= 1,
    ensures
        i == nearest_in(palette@, *c),
        i < palette@.len(),
{
    let mut best: usize = 0;
    let mut best_d: u32 = MAX_DIST2 + 1;
    let mut j: usize = 0;
    while j < palette.len()
        invariant
            j <= palette@.len(),
            palette@.len() >= 1,
            j == 0 ==> best == 0 && best_d == MAX_DIST2 + 1,
            j > 0 ==> {
                &&& best == nearest_in(palette@.take(j as int), *c)
                &&& best < j
                &&& best_d == dist2(palette@[best as int], *c)
            },
        decreases palette@.len() - j,
    {
        let d = color_dist2(&palette[j], c);
        proof {
            let taken = palette@.take(j as int + 1);
            assert(taken.drop_last() =~= palette@.take(j as int));
            assert(taken.last() == palette@[j as int]);
            if j > 0 {
                lemma_nearest_minimal(palette@.take(j as int), *c);
                assert(taken[nearest_in(taken.drop_last(), *c)]
                    == palette@[nearest_in(palette@.take(j as int), *c)]);
            } else {
                crate::color::lemma_dist2_bounds(palette@[0], *c);
            }
        }
        if d < best_d {
            best = j;
            best_d = d;
        }
        j = j + 1;
    }
    proof {
        assert(palette@.take(palette@.len() as int) =~= palette@);
    }
    best
}

/// Quantize a whole image against a palette: one palette index per pixel,
/// row-major. The per-pixel rule is applied independently to every pixel,
/// with no state shared across pixels, so each entry is a pure function
/// of its own color and the palette.
pub fn quantize_image(img: &Image, palette: &Vec<Color>, dither: DitherStrategy) -> (idx: Vec<
    usize,
>)
    requires
        img.wf(),
        palette@.len() >= 1,
    ensures
        idx@.len() == img.spec_height() * img.spec_width(),
        forall|x: int, y: int|
            0 <= x < img.spec_width() && 0 <= y < img.spec_height() ==> idx@[y * img.spec_width()
                + x] == nearest_in(palette@, img.spec_pixel(x, y)),
        forall|k: int| 0 <= k < idx@.len() ==> #[trigger] idx@[k] < palette@.len(),
{
    match dither {
        DitherStrategy::Disabled => {},
    }
    let w = img.width();
    let h = img.height();
    let mut idx: Vec<usize> = Vec::new();
    let mut y: u32 = 0;
    while y < h
        invariant
            img.wf(),
            palette@.len() >= 1,
            w == img.spec_width(),
            h == img.spec_height(),
            y <= h,
            idx@.len() == y * w,
            forall|xx: int, yy: int|
                0 <= xx < w && 0 <= yy < y ==> idx@[yy * w + xx] == nearest_in(
                    palette@,
                    img.spec_pixel(xx, yy),
                ),
            forall|k: int| 0 <= k < idx@.len() ==> #[trigger] idx@[k] < palette@.len(),
        decreases h - y,
    {
        let mut x: u32 = 0;
        while x < w
            invariant
                img.wf(),
                palette@.len() >= 1,
                w == img.spec_width(),
                h == img.spec_height(),
                y < h,
                x <= w,
                idx@.len() == y * w + x,
                forall|xx: int, yy: int|
                    0 <= xx < w && 0 <= yy < y ==> idx@[yy * w + xx] == nearest_in(
                        palette@,
                        img.spec_pixel(xx, yy),
                    ),
                forall|xx: int|
                    0 <= xx < x ==> idx@[y * w + xx] == nearest_in(
                        palette@,
                        img.spec_pixel(xx, y as int),
                    ),
                forall|k: int| 0 <= k < idx@.len() ==> #[trigger] idx@[k] < palette@.len(),
            decreases w - x,
        {
            let c = img.pixel(x, y);
            idx.push(nearest(palette, &c));
            proof {
                assert forall|xx: int, yy: int| 0 <= xx < w && 0 <= yy < y implies idx@[yy * w + xx]
                    == nearest_in(palette@, img.spec_pixel(xx, yy)) by {
                    lemma_row_major_index(xx, yy, w as int, y as int);
                }
            }
            x = x + 1;
        }
        proof {
            assert((y as int + 1) * (w as int) == (y as int) * (w as int) + (w as int))
                by (nonlinear_arith);
            assert forall|xx: int, yy: int| 0 <= xx < w && 0 <= yy < y + 1 implies idx@[yy * w + xx]
                == nearest_in(palette@, img.spec_pixel(xx, yy)) by {
                if yy < y {
                    lemma_row_major_index(xx, yy, w as int, y as int);
                }
            }
        }
        y = y + 1;
    }
    idx
}

/// The disabling hook for dithering. Quantization applies no error
/// diffusion; this strategy makes that choice an explicit parameter, so a
/// diffusing strategy could be added later without changing the quantizer
/// contract.
#[derive(Clone, Copy, PartialEq, Eq, Structural, Debug)]
pub enum DitherStrategy {
    /// No dithering: each pixel is mapped independently of every other.
    Disabled,
}

impl Default for DitherStrategy {
    /// Dithering is disabled unless a caller asks for something else.
    fn default() -> (d: DitherStrategy)
        ensures
            d == DitherStrategy::Disabled,
    {
        DitherStrategy::Disabled
    }
}

} // verus!
