//! The pixel buffer: an immutable row-major 2-D grid of colors, and the
//! nearest-neighbor resampler that produces a new buffer of a requested
//! size. Resampling is by selecting the closest source pixel per
//! destination pixel, never by averaging, so edges stay sharp.

use vstd::prelude::*;

use crate::color::Color;

verus! {

/// An immutable 2-D buffer of pixels, stored row-major. Fitting produces a
/// new buffer; nothing mutates one in place. Either dimension may be zero,
/// which is an empty image.
pub struct Image {
    width: u32,
    height: u32,
    pixels: Vec<Color>,
}

/// The source row or column a destination index samples under
/// nearest-neighbor resampling: the source pixel whose center is nearest
/// the center of destination pixel `dst` when `slen` source pixels are
/// spread over `dlen` destination pixels.
pub open spec fn sample_coord(dst: int, dlen: int, slen: int) -> int {
    ((2 * dst + 1) * slen) / (2 * dlen)
}

impl Image {
    /// Width in pixels.
    pub closed spec fn spec_width(self) -> int {
        self.width as int
    }

    /// Height in pixels.
    pub closed spec fn spec_height(self) -> int {
        self.height as int
    }

    /// The buffer holds exactly one color per coordinate pair.
    pub closed spec fn wf(self) -> bool {
        self.pixels@.len() == self.spec_height() * self.spec_width()
    }

    /// The color at column `x` of row `y`.
    pub closed spec fn spec_pixel(self, x: int, y: int) -> Color {
        self.pixels@[y * self.spec_width() + x]
    }

    /// Wrap a row-major pixel buffer; refused unless it holds exactly
    /// `width * height` pixels.
    pub fn new(width: u32, height: u32, pixels: Vec<Color>) -> (img: Option<Image>)
        ensures
            match img {
                Some(im) => {
                    &&& pixels@.len() == height * width
                    &&& im.wf()
                    &&& im.spec_width() == width
                    &&& im.spec_height() == height
                    &&& forall|x: int, y: int|
                        0 <= x < width && 0 <= y < height ==> im.spec_pixel(x, y) == pixels@[y
                            * width + x]
                },
                None => pixels@.len() != height * width,
            },
    {
        proof {
            vstd::arithmetic::mul::lemma_mul_upper_bound(
                height as int,
                0xFFFF_FFFF,
                width as int,
                0xFFFF_FFFF,
            );
        }
        if pixels.len() as u64 == (height as u64) * (width as u64) {
            Some(Image { width, height, pixels })
        } else {
            None
        }
    }

    /// Width in pixels.
    pub fn width(&self) -> (w: u32)
        ensures
            w == self.spec_width(),
    {
        self.width
    }

    /// Height in pixels.
    pub fn height(&self) -> (h: u32)
        ensures
            h == self.spec_height(),
    {
        self.height
    }

    /// The color at column `x` of row `y`.
    pub fn pixel(&self, x: u32, y: u32) -> (c: Color)
        requires
            self.wf(),
            x < self.spec_width(),
            y < self.spec_height(),
        ensures
            c == self.spec_pixel(x as int, y as int),
    {
        let n = self.pixels.len();
        proof {
            lemma_row_major_index(x as int, y as int, self.spec_width(), self.spec_height());
            assert((y as int) * (self.width as int) + (x as int) < n as int);
        }
        self.pixels[(y as usize) * (self.width as usize) + (x as usize)]
    }

    /// Resample to `w` by `h` pixels with nearest-neighbor interpolation:
    /// every destination pixel is a copy of the source pixel its center
    /// falls nearest to. A zero target dimension yields an empty image.
    pub fn resample(&self, w: u32, h: u32) -> (out: Image)
        requires
            self.wf(),
            self.spec_width() >= 1,
            self.spec_height() >= 1,
        ensures
            out.wf(),
            out.spec_width() == w,
            out.spec_height() == h,
            forall|x: int, y: int|
                0 <= x < w && 0 <= y < h ==> out.spec_pixel(x, y) == self.spec_pixel(
                    sample_coord(x, w as int, self.spec_width()),
                    sample_coord(y, h as int, self.spec_height()),
                ),
    {
        let mut pixels: Vec<Color> = Vec::new();
        let mut y: u32 = 0;
        while y < h
            invariant
                self.wf(),
                self.spec_width() >= 1,
                self.spec_height() >= 1,
                y <= h,
                pixels@.len() == y * w,
                forall|xx: int, yy: int|
                    0 <= xx < w && 0 <= yy < y ==> pixels@[yy * w + xx] == self.spec_pixel(
                        sample_coord(xx, w as int, self.spec_width()),
                        sample_coord(yy, h as int, self.spec_height()),
                    ),
            decreases h - y,
        {
            let sy = sample_into(y, h, self.height);
            let mut x: u32 = 0;
            while x < w
                invariant
                    self.wf(),
                    self.spec_width() >= 1,
                    self.spec_height() >= 1,
                    y < h,
                    x <= w,
                    sy == sample_coord(y as int, h as int, self.spec_height()),
                    sy < self.spec_height(),
                    pixels@.len() == y * w + x,
                    forall|xx: int, yy: int|
                        0 <= xx < w && 0 <= yy < y ==> pixels@[yy * w + xx] == self.spec_pixel(
                            sample_coord(xx, w as int, self.spec_width()),
                            sample_coord(yy, h as int, self.spec_height()),
                        ),
                    forall|xx: int|
                        0 <= xx < x ==> pixels@[y * w + xx] == self.spec_pixel(
                            sample_coord(xx, w as int, self.spec_width()),
                            sample_coord(y as int, h as int, self.spec_height()),
                        ),
                decreases w - x,
            {
                let sx = sample_into(x, w, self.width);
                pixels.push(self.pixel(sx, sy));
                proof {
                    assert forall|xx: int, yy: int| 0 <= xx < w && 0 <= yy < y implies pixels@[yy
                        * w + xx] == self.spec_pixel(
                        sample_coord(xx, w as int, self.spec_width()),
                        sample_coord(yy, h as int, self.spec_height()),
                    ) by {
                        lemma_row_major_index(xx, yy, w as int, y as int);
                    }
                }
                x = x + 1;
            }
            proof {
                assert((y as int + 1) * (w as int) == (y as int) * (w as int) + (w as int))
                    by (nonlinear_arith);
                assert forall|xx: int, yy: int| 0 <= xx < w && 0 <= yy < y + 1 implies pixels@[yy
                    * w + xx] == self.spec_pixel(
                    sample_coord(xx, w as int, self.spec_width()),
                    sample_coord(yy, h as int, self.spec_height()),
                ) by {
                    if yy < y {
                        lemma_row_major_index(xx, yy, w as int, y as int);
                    }
                }
            }
            y = y + 1;
        }
        Image { width: w, height: h, pixels }
    }
}

/// A row-major index stays inside the buffer, and inside its own row.
pub(crate) proof fn lemma_row_major_index(x: int, y: int, w: int, h: int)
    by (nonlinear_arith)
    requires
        0 <= x < w,
        0 <= y < h,
    ensures
        0 <= y * w + x < h * w,
        y * w + x < (y + 1) * w,
{
}

/// The sample coordinate for destination index `dst` of `dlen`, against
/// `slen` source pixels; always a valid source index.
fn sample_into(dst: u32, dlen: u32, slen: u32) -> (s: u32)
    requires
        dst < dlen,
        slen >= 1,
    ensures
        s == sample_coord(dst as int, dlen as int, slen as int),
        s < slen,
{
    proof {
        vstd::arithmetic::mul::lemma_mul_upper_bound(
            2 * (dst as int) + 1,
            0x1_FFFF_FFFF,
            slen as int,
            0xFFFF_FFFF,
        );
    }
    let num: u128 = (2 * (dst as u128) + 1) * (slen as u128);
    let den: u128 = 2 * (dlen as u128);
    let s128: u128 = num / den;
    proof {
        vstd::arithmetic::mul::lemma_mul_strict_inequality(
            2 * (dst as int) + 1,
            2 * (dlen as int),
            slen as int,
        );
        vstd::arithmetic::div_mod::lemma_multiply_divide_lt(
            (2 * (dst as int) + 1) * (slen as int),
            2 * (dlen as int),
            slen as int,
        );
        vstd::arithmetic::mul::lemma_mul_is_commutative(2 * (dlen as int), slen as int);
    }
    s128 as u32
}

} // verus!
