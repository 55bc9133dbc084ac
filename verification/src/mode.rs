//! The closed set of render modes, the configuration error for a request
//! outside it, and the parsing of mode names.

use vstd::prelude::*;

verus! {

/// The supported visual styles. The set is closed: an unrecognized mode
/// name is a caller error, never guessed around.
#[derive(Clone, Copy, PartialEq, Eq, Structural, Debug)]
pub enum RenderMode {
    /// Two glyphs, dark and light, split at luma 128.
    Monochrome,
    /// Nine-level grayscale glyph ramp.
    GrayRamp9,
    /// Five-level grayscale glyph ramp.
    GrayRamp5,
    /// The 8 basic ANSI colors.
    Ansi8,
    /// The 16 basic and bright ANSI colors.
    Ansi16,
    /// The 256-color ANSI palette.
    Ansi256,
    /// The pixel's own RGB value, no quantization.
    Truecolor,
}

/// A configuration the pipeline rejects before rendering anything.
#[derive(Clone, Copy, PartialEq, Eq, Structural, Debug)]
pub enum ConfigError {
    /// The requested mode name is not in the closed mode set.
    UnknownMode,
}

/// The mode a name selects, or nothing for a name outside the set.
pub open spec fn spec_parse_mode(s: Seq<char>) -> Option<RenderMode> {
    if s == "pound"@ {
        Some(RenderMode::Monochrome)
    } else if s == "ascii"@ {
        Some(RenderMode::GrayRamp9)
    } else if s == "ascii-simple"@ {
        Some(RenderMode::GrayRamp5)
    } else if s == "8colors"@ {
        Some(RenderMode::Ansi8)
    } else if s == "16colors"@ {
        Some(RenderMode::Ansi16)
    } else if s == "256colors"@ {
        Some(RenderMode::Ansi256)
    } else if s == "truecolor"@ {
        Some(RenderMode::Truecolor)
    } else {
        None
    }
}

/// Character-for-character string equality.
fn str_eq(a: &str, b: &str) -> (r: bool)
    ensures
        r == (a@ == b@),
{
    let la = a.unicode_len();
    let lb = b.unicode_len();
    if la != lb {
        return false;
    }
    let mut i: usize = 0;
    while i < la
        invariant
            i <= la,
            la == a@.len(),
            la == b@.len(),
            forall|j: int| 0 <= j < i ==> a@[j] == b@[j],
        decreases la - i,
    {
        if a.get_char(i) != b.get_char(i) {
            return false;
        }
        i = i + 1;
    }
    proof {
        assert(a@ =~= b@);
    }
    true
}

/// Resolve a mode name to its mode. A name outside the closed set is a
/// configuration error and selects nothing.
pub fn parse_mode(name: &str) -> (r: Result<RenderMode, ConfigError>)
    ensures
        match r {
            Ok(m) => spec_parse_mode(name@) == Some(m),
            Err(e) => spec_parse_mode(name@) is None && e == ConfigError::UnknownMode,
        },
{
    if str_eq(name, "pound") {
        Ok(RenderMode::Monochrome)
    } else if str_eq(name, "ascii") {
        Ok(RenderMode::GrayRamp9)
    } else if str_eq(name, "ascii-simple") {
        Ok(RenderMode::GrayRamp5)
    } else if str_eq(name, "8colors") {
        Ok(RenderMode::Ansi8)
    } else if str_eq(name, "16colors") {
        Ok(RenderMode::Ansi16)
    } else if str_eq(name, "256colors") {
        Ok(RenderMode::Ansi256)
    } else if str_eq(name, "truecolor") {
        Ok(RenderMode::Truecolor)
    } else {
        Err(ConfigError::UnknownMode)
    }
}

} // verus!
