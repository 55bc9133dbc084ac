//! The fixed candidate palettes, one per render mode: monochrome, the two
//! grayscale glyph ramps, the 8- and 16-color ANSI sets, and the generated
//! 256-color cube-plus-grayscale set. Index position is the palette index
//! every downstream glyph or color-code lookup uses, so entry order is part
//! of the contract.

use vstd::prelude::*;

use crate::color::{rgb, Color};
use crate::mode::RenderMode;

verus! {

/// Entry `i` of the 16-color ANSI palette: the conventional terminal
/// ordering black, red, green, yellow, blue, magenta, cyan, white, then the
/// bright variant of each in the same order. The index equals the ANSI
/// color code, which is load-bearing.
pub open spec fn ansi16_entry(i: int) -> Color {
    if i == 0 {
        rgb(0, 0, 0)
    } else if i == 1 {
        rgb(128, 0, 0)
    } else if i == 2 {
        rgb(0, 128, 0)
    } else if i == 3 {
        rgb(128, 128, 0)
    } else if i == 4 {
        rgb(0, 0, 128)
    } else if i == 5 {
        rgb(128, 0, 128)
    } else if i == 6 {
        rgb(0, 128, 128)
    } else if i == 7 {
        rgb(192, 192, 192)
    } else if i == 8 {
        rgb(128, 128, 128)
    } else if i == 9 {
        rgb(255, 0, 0)
    } else if i == 10 {
        rgb(0, 255, 0)
    } else if i == 11 {
        rgb(255, 255, 0)
    } else if i == 12 {
        rgb(0, 0, 255)
    } else if i == 13 {
        rgb(255, 0, 255)
    } else if i == 14 {
        rgb(0, 255, 255)
    } else {
        rgb(255, 255, 255)
    }
}

/// The 8-color ANSI palette: the first eight entries of the 16-color one.
pub open spec fn ansi8_palette() -> Seq<Color> {
    Seq::new(8, |i: int| ansi16_entry(i))
}

/// The 16-color ANSI palette.
pub open spec fn ansi16_palette() -> Seq<Color> {
    Seq::new(16, |i: int| ansi16_entry(i))
}

/// The six channel levels of the 256-color cube.
pub open spec fn cube_level(j: int) -> int {
    if j == 0 {
        0
    } else if j == 1 {
        95
    } else if j == 2 {
        135
    } else if j == 3 {
        175
    } else if j == 4 {
        215
    } else {
        255
    }
}

/// Entry `i` of the 256-color palette: entries 0..16 are the 16-color
/// palette verbatim; entries 16..232 are the 6x6x6 color cube, nested
/// red-outer, green-middle, blue-inner, so that entry `16 + 36 r + 6 g + b`
/// holds the levels for channel indices (r, g, b); entries 232..256 are 24
/// grayscale steps of value `10 i + 8`.
pub open spec fn ansi256_entry(i: int) -> Color {
    if i < 16 {
        ansi16_entry(i)
    } else if i < 232 {
        let k = i - 16;
        rgb(cube_level(k / 36) as u8, cube_level((k / 6) % 6) as u8, cube_level(k % 6) as u8)
    } else {
        let v = (10 * (i - 232) + 8) as u8;
        rgb(v, v, v)
    }
}

/// The 256-color palette.
pub open spec fn ansi256_palette() -> Seq<Color> {
    Seq::new(256, |i: int| ansi256_entry(i))
}

/// Gray level `i` of the 9-entry grayscale ramp, ordered dark to light.
pub open spec fn gray9_level(i: int) -> u8 {
    if i == 0 {
        0
    } else if i == 1 {
        32
    } else if i == 2 {
        64
    } else if i == 3 {
        96
    } else if i == 4 {
        128
    } else if i == 5 {
        160
    } else if i == 6 {
        192
    } else if i == 7 {
        224
    } else {
        255
    }
}

/// Gray level `i` of the 5-entry grayscale ramp, ordered dark to light.
pub open spec fn gray5_level(i: int) -> u8 {
    if i == 0 {
        0
    } else if i == 1 {
        64
    } else if i == 2 {
        128
    } else if i == 3 {
        160
    } else {
        255
    }
}

/// The monochrome palette: black then white, darkest at index 0.
pub open spec fn mono_palette() -> Seq<Color> {
    seq![rgb(0, 0, 0), rgb(255, 255, 255)]
}

/// The 9-entry grayscale ramp palette, dark to light.
pub open spec fn gray9_palette() -> Seq<Color> {
    Seq::new(9, |i: int| rgb(gray9_level(i), gray9_level(i), gray9_level(i)))
}

/// The 5-entry grayscale ramp palette, dark to light.
pub open spec fn gray5_palette() -> Seq<Color> {
    Seq::new(5, |i: int| rgb(gray5_level(i), gray5_level(i), gray5_level(i)))
}

/// The candidate palette of each mode with a discrete palette; truecolor
/// has none and gets the empty sequence.
pub open spec fn spec_palette(mode: RenderMode) -> Seq<Color> {
    match mode {
        RenderMode::Monochrome => mono_palette(),
        RenderMode::GrayRamp9 => gray9_palette(),
        RenderMode::GrayRamp5 => gray5_palette(),
        RenderMode::Ansi8 => ansi8_palette(),
        RenderMode::Ansi16 => ansi16_palette(),
        RenderMode::Ansi256 => ansi256_palette(),
        RenderMode::Truecolor => Seq::empty(),
    }
}

/// Build the monochrome palette.
pub fn build_mono() -> (p: Vec<Color>)
    ensures
        p@ == mono_palette(),
{
    let mut p: Vec<Color> = Vec::new();
    p.push(Color { r: 0, g: 0, b: 0, a: 255 });
    p.push(Color { r: 255, g: 255, b: 255, a: 255 });
    proof {
        assert(p@ =~= mono_palette());
    }
    p
}

/// Gray level `i` of the 9-entry ramp.
fn gray9_level_at(i: usize) -> (v: u8)
    requires
        i < 9,
    ensures
        v == gray9_level(i as int),
{
    if i == 0 {
        0
    } else if i == 1 {
        32
    } else if i == 2 {
        64
    } else if i == 3 {
        96
    } else if i == 4 {
        128
    } else if i == 5 {
        160
    } else if i == 6 {
        192
    } else if i == 7 {
        224
    } else {
        255
    }
}

/// Gray level `i` of the 5-entry ramp.
fn gray5_level_at(i: usize) -> (v: u8)
    requires
        i < 5,
    ensures
        v == gray5_level(i as int),
{
    if i == 0 {
        0
    } else if i == 1 {
        64
    } else if i == 2 {
        128
    } else if i == 3 {
        160
    } else {
        255
    }
}

/// Build the 9-entry grayscale ramp palette.
pub fn build_gray9() -> (p: Vec<Color>)
    ensures
        p@ == gray9_palette(),
{
    let mut p: Vec<Color> = Vec::new();
    let mut i: usize = 0;
    while i < 9
        invariant
            i <= 9,
            p@.len() == i,
            forall|j: int| 0 <= j < i ==> p@[j] == gray9_palette()[j],
        decreases 9 - i,
    {
        let v = gray9_level_at(i);
        p.push(Color { r: v, g: v, b: v, a: 255 });
        i = i + 1;
    }
    proof {
        assert(p@ =~= gray9_palette());
    }
    p
}

/// Build the 5-entry grayscale ramp palette.
pub fn build_gray5() -> (p: Vec<Color>)
    ensures
        p@ == gray5_palette(),
{
    let mut p: Vec<Color> = Vec::new();
    let mut i: usize = 0;
    while i < 5
        invariant
            i <= 5,
            p@.len() == i,
            forall|j: int| 0 <= j < i ==> p@[j] == gray5_palette()[j],
        decreases 5 - i,
    {
        let v = gray5_level_at(i);
        p.push(Color { r: v, g: v, b: v, a: 255 });
        i = i + 1;
    }
    proof {
        assert(p@ =~= gray5_palette());
    }
    p
}

/// Entry `i` of the 16-color palette.
fn ansi16_entry_at(i: usize) -> (c: Color)
    requires
        i < 16,
    ensures
        c == ansi16_entry(i as int),
{
    if i == 0 {
        Color { r: 0, g: 0, b: 0, a: 255 }
    } else if i == 1 {
        Color { r: 128, g: 0, b: 0, a: 255 }
    } else if i == 2 {
        Color { r: 0, g: 128, b: 0, a: 255 }
    } else if i == 3 {
        Color { r: 128, g: 128, b: 0, a: 255 }
    } else if i == 4 {
        Color { r: 0, g: 0, b: 128, a: 255 }
    } else if i == 5 {
        Color { r: 128, g: 0, b: 128, a: 255 }
    } else if i == 6 {
        Color { r: 0, g: 128, b: 128, a: 255 }
    } else if i == 7 {
        Color { r: 192, g: 192, b: 192, a: 255 }
    } else if i == 8 {
        Color { r: 128, g: 128, b: 128, a: 255 }
    } else if i == 9 {
        Color { r: 255, g: 0, b: 0, a: 255 }
    } else if i == 10 {
        Color { r: 0, g: 255, b: 0, a: 255 }
    } else if i == 11 {
        Color { r: 255, g: 255, b: 0, a: 255 }
    } else if i == 12 {
        Color { r: 0, g: 0, b: 255, a: 255 }
    } else if i == 13 {
        Color { r: 255, g: 0, b: 255, a: 255 }
    } else if i == 14 {
        Color { r: 0, g: 255, b: 255, a: 255 }
    } else {
        Color { r: 255, g: 255, b: 255, a: 255 }
    }
}

/// Build the 8-color ANSI palette.
pub fn build_ansi8() -> (p: Vec<Color>)
    ensures
        p@ == ansi8_palette(),
{
    let mut p: Vec<Color> = Vec::new();
    let mut i: usize = 0;
    while i < 8
        invariant
            i <= 8,
            p@.len() == i,
            forall|j: int| 0 <= j < i ==> p@[j] == ansi8_palette()[j],
        decreases 8 - i,
    {
        p.push(ansi16_entry_at(i));
        i = i + 1;
    }
    proof {
        assert(p@ =~= ansi8_palette());
    }
    p
}

/// Build the 16-color ANSI palette.
pub fn build_ansi16() -> (p: Vec<Color>)
    ensures
        p@ == ansi16_palette(),
{
    let mut p: Vec<Color> = Vec::new();
    let mut i: usize = 0;
    while i < 16
        invariant
            i <= 16,
            p@.len() == i,
            forall|j: int| 0 <= j < i ==> p@[j] == ansi16_palette()[j],
        decreases 16 - i,
    {
        p.push(ansi16_entry_at(i));
        i = i + 1;
    }
    proof {
        assert(p@ =~= ansi16_palette());
    }
    p
}

/// The cube channel level for index `j`.
fn cube_level_at(j: usize) -> (v: u8)
    requires
        j < 6,
    ensures
        v == cube_level(j as int),
{
    if j == 0 {
        0
    } else if j == 1 {
        95
    } else if j == 2 {
        135
    } else if j == 3 {
        175
    } else if j == 4 {
        215
    } else {
        255
    }
}

/// Build the 256-color palette: the 16-color set, then the 6x6x6 cube in
/// red-major order, then the 24-step grayscale ramp. The palette is large
/// but regular, so it is generated rather than written out.
pub fn build_ansi256() -> (p: Vec<Color>)
    ensures
        p@ == ansi256_palette(),
{
    let mut p = build_ansi16();
    proof {
        assert(forall|j: int| 0 <= j < 16 ==> p@[j] == ansi256_palette()[j]);
    }
    let mut r: usize = 0;
    while r < 6
        invariant
            r <= 6,
            p@.len() == 16 + 36 * r,
            forall|j: int| 0 <= j < p@.len() ==> p@[j] == ansi256_palette()[j],
        decreases 6 - r,
    {
        let mut g: usize = 0;
        while g < 6
            invariant
                r < 6,
                g <= 6,
                p@.len() == 16 + 36 * r + 6 * g,
                forall|j: int| 0 <= j < p@.len() ==> p@[j] == ansi256_palette()[j],
            decreases 6 - g,
        {
            let mut b: usize = 0;
            while b < 6
                invariant
                    r < 6,
                    g < 6,
                    b <= 6,
                    p@.len() == 16 + 36 * r + 6 * g + b,
                    forall|j: int| 0 <= j < p@.len() ==> p@[j] == ansi256_palette()[j],
                decreases 6 - b,
            {
                let c = Color {
                    r: cube_level_at(r),
                    g: cube_level_at(g),
                    b: cube_level_at(b),
                    a: 255,
                };
                proof {
                    let k = 36 * (r as int) + 6 * (g as int) + (b as int);
                    assert(k / 36 == r && (k / 6) % 6 == g && k % 6 == b) by {
                        assert(k == 36 * (r as int) + (6 * (g as int) + (b as int)));
                        assert(k / 6 == 6 * (r as int) + (g as int));
                    }
                }
                p.push(c);
                b = b + 1;
            }
            g = g + 1;
        }
        r = r + 1;
    }
    let mut i: usize = 0;
    while i < 24
        invariant
            i <= 24,
            p@.len() == 232 + i,
            forall|j: int| 0 <= j < p@.len() ==> p@[j] == ansi256_palette()[j],
        decreases 24 - i,
    {
        let v: u8 = (10 * i + 8) as u8;
        p.push(Color { r: v, g: v, b: v, a: 255 });
        i = i + 1;
    }
    proof {
        assert(p@ =~= ansi256_palette());
    }
    p
}

/// The 6x6x6 cube occupies entries 16..232 of the 256-color palette in
/// red-major order, and entries 232..256 are the grayscale steps
/// `10 i + 8`.
pub proof fn lemma_ansi256_layout(r: int, g: int, b: int, i: int)
    requires
        0 <= r < 6,
        0 <= g < 6,
        0 <= b < 6,
        0 <= i < 24,
    ensures
        ansi256_palette()[16 + 36 * r + 6 * g + b] == rgb(
            cube_level(r) as u8,
            cube_level(g) as u8,
            cube_level(b) as u8,
        ),
        ansi256_palette()[232 + i] == rgb((10 * i + 8) as u8, (10 * i + 8) as u8, (10 * i + 8) as u8),
{
    let k = 36 * r + 6 * g + b;
    assert(k / 36 == r && (k / 6) % 6 == g && k % 6 == b) by {
        assert(k == 36 * r + (6 * g + b));
        assert(k / 6 == 6 * r + g);
    }
}

/// Build the candidate palette for a mode; truecolor is quantized against
/// no palette at all, so it has none.
pub fn build_palette(mode: RenderMode) -> (p: Option<Vec<Color>>)
    ensures
        match p {
            Some(pal) => mode != RenderMode::Truecolor && pal@ == spec_palette(mode),
            None => mode == RenderMode::Truecolor,
        },
{
    match mode {
        RenderMode::Monochrome => Some(build_mono()),
        RenderMode::GrayRamp9 => Some(build_gray9()),
        RenderMode::GrayRamp5 => Some(build_gray5()),
        RenderMode::Ansi8 => Some(build_ansi8()),
        RenderMode::Ansi16 => Some(build_ansi16()),
        RenderMode::Ansi256 => Some(build_ansi256()),
        RenderMode::Truecolor => None,
    }
}

} // verus!
