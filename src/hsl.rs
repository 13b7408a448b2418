//! HSL to RGB conversion, computed exactly on whole degrees and percents.
//!
//! Every intermediate value of the conversion is a multiple of
//! `1 / HSL_SCALE`; the spec functions below give its numerator over that
//! scale, so the conversion needs no fractions and no rounding but the final
//! truncation of each channel.
use vstd::prelude::*;

verus! {

/// The common denominator of the conversion's intermediate values.
pub const HSL_SCALE: i128 = 600000;

/// `|a|`.
pub open spec fn abs(a: int) -> int {
    if a < 0 {
        -a
    } else {
        a
    }
}

/// `a / d` rounded toward zero.
pub open spec fn trunc_div(a: int, d: int) -> int {
    if a >= 0 {
        a / d
    } else {
        -((-a) / d)
    }
}

/// The remainder of `a / d` rounded toward zero; it has the sign of `a`.
pub open spec fn trunc_rem(a: int, d: int) -> int {
    a - d * trunc_div(a, d)
}

/// `1 - |2l - 1|` for lightness `l` percent, times 100.
pub open spec fn lightness_span(l: int) -> int {
    100 - abs(2 * l - 100)
}

/// The chroma `c = (1 - |2l - 1|) s`, over `HSL_SCALE`.
pub open spec fn chroma(s: int, l: int) -> int {
    lightness_span(l) * s * 60
}

/// `1 - |(h / 60) mod 2 - 1|` for hue `h` degrees, times 60; `mod` keeps the
/// sign of `h`.
pub open spec fn hue_weight(h: int) -> int {
    60 - abs(trunc_rem(h, 120) - 60)
}

/// The second largest component `x = c (1 - |(h / 60) mod 2 - 1|)`, over
/// `HSL_SCALE`.
pub open spec fn secondary(h: int, s: int, l: int) -> int {
    lightness_span(l) * s * hue_weight(h)
}

/// The offset `m = l - c / 2` added to each component, over `HSL_SCALE`.
pub open spec fn offset(s: int, l: int) -> int {
    6000 * l - lightness_span(l) * s * 30
}

/// The hue segment: `h / 60` rounded toward zero.
pub open spec fn hue_segment(h: int) -> int {
    trunc_div(h, 60)
}

/// The components before the offset, in the order of the hue segment; every
/// segment past 4, and every negative one, takes the order of segment 5.
pub open spec fn hue_components(h: int, s: int, l: int) -> (int, int, int) {
    let c = chroma(s, l);
    let x = secondary(h, s, l);
    let seg = hue_segment(h);
    if seg == 0 {
        (c, x, 0)
    } else if seg == 1 {
        (x, c, 0)
    } else if seg == 2 {
        (0, c, x)
    } else if seg == 3 {
        (0, x, c)
    } else if seg == 4 {
        (x, 0, c)
    } else {
        (c, 0, x)
    }
}

/// A channel from a value over `HSL_SCALE`: the value times 255, truncated
/// toward zero and held to `0..=255`.
pub open spec fn channel(v: int) -> u8 {
    if v <= 0 {
        0
    } else if v * 255 / (HSL_SCALE as int) >= 255 {
        255
    } else {
        (v * 255 / (HSL_SCALE as int)) as u8
    }
}

/// The color of hue `h` degrees, saturation `s` percent and lightness `l`
/// percent.
pub open spec fn hsl_rgb(h: int, s: int, l: int) -> (u8, u8, u8) {
    let (r, g, b) = hue_components(h, s, l);
    let m = offset(s, l);
    (channel(r + m), channel(g + m), channel(b + m))
}

/// The channel of the value `v` over `HSL_SCALE`.
fn to_channel(v: i128) -> (r: u8)
    requires
        -0x1_0000_0000_0000_0000_0000 <= v <= 0x1_0000_0000_0000_0000_0000,
    ensures
        r == channel(v as int),
{
    if v <= 0 {
        0
    } else {
        let q = v * 255 / HSL_SCALE;
        if q >= 255 {
            255
        } else {
            q as u8
        }
    }
}

/// Convert hue `h` (degrees), saturation `s` and lightness `l` (percent) to
/// red, green and blue.
///
/// No input is rejected: values out of the conventional ranges go through the
/// same formula, and each channel is truncated toward zero and held to
/// `0..=255`.
pub fn hsl_to_rgb(h: i32, s: i32, l: i32) -> (rgb: (u8, u8, u8))
    ensures
        rgb == hsl_rgb(h as int, s as int, l as int),
{
    let h = h as i128;
    let s = s as i128;
    let l = l as i128;
    let dl = 2 * l - 100;
    let span = 100 - if dl < 0 {
        -dl
    } else {
        dl
    };
    assert(span == lightness_span(l as int));
    assert(-0x2_0000_0000 <= span <= 100);
    assert(-0x4_0000_0000_0000_0000 <= span * s <= 0x4_0000_0000_0000_0000) by (nonlinear_arith)
        requires
            -0x2_0000_0000 <= span <= 100,
            -0x8000_0000 <= s <= 0x8000_0000,
    ;
    let ss = span * s;
    let seg: i128 = if h >= 0 {
        h / 60
    } else {
        -((-h) / 60)
    };
    let turn: i128 = if h >= 0 {
        h / 120
    } else {
        -((-h) / 120)
    };
    let rem = h - 120 * turn;
    assert(rem == trunc_rem(h as int, 120));
    assert(-120 < rem < 120);
    let dr = rem - 60;
    let weight = 60 - if dr < 0 {
        -dr
    } else {
        dr
    };
    assert(weight == hue_weight(h as int));
    let c = ss * 60;
    assert(-0x4_0000_0000_0000_0000 * 120 <= ss * weight <= 0x4_0000_0000_0000_0000 * 120)
        by (nonlinear_arith)
        requires
            -0x4_0000_0000_0000_0000 <= ss <= 0x4_0000_0000_0000_0000,
            -120 <= weight <= 60,
    ;
    let x = ss * weight;
    let m = 6000 * l - ss * 30;
    assert(c == chroma(s as int, l as int));
    assert(x == secondary(h as int, s as int, l as int));
    assert(m == offset(s as int, l as int));
    let (r, g, b) = if seg == 0 {
        (c, x, 0)
    } else if seg == 1 {
        (x, c, 0)
    } else if seg == 2 {
        (0, c, x)
    } else if seg == 3 {
        (0, x, c)
    } else if seg == 4 {
        (x, 0, c)
    } else {
        (c, 0, x)
    };
    (to_channel(r + m), to_channel(g + m), to_channel(b + m))
}

} // verus!
