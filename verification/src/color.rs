//! Brightness scaling and the color triplet.
//!
//! Each 8-bit channel drawn from the random source is scaled down to the
//! configured brightness by `floor(byte * scale / 255)`, using integer
//! arithmetic only. The scaled value never exceeds the scale factor and is
//! monotonic in the input byte.

use vstd::prelude::*;

verus! {

/// Maximum channel intensity the LED is driven at; a build-time constant.
pub const BRIGHTNESS_SCALE: u8 = 8;

/// What scaling a channel means: `floor(b * s / 255)`.
pub open spec fn spec_scale(b: u8, s: u8) -> int {
    (b * s) / 255
}

/// The scaled value stays within `[0, s]`.
pub proof fn lemma_scale_bounds(b: u8, s: u8)
    ensures
        0 <= spec_scale(b, s) <= s,
{
    assert(0 <= (b * s) / 255 <= s) by (nonlinear_arith)
        requires
            b <= 255,
            s <= 255,
    ;
}

/// Scaling is monotonic in the input byte, at a fixed scale.
pub proof fn lemma_scale_monotonic(b1: u8, b2: u8, s: u8)
    requires
        b1 <= b2,
    ensures
        spec_scale(b1, s) <= spec_scale(b2, s),
{
    assert((b1 * s) / 255 <= (b2 * s) / 255) by (nonlinear_arith)
        requires
            b1 <= b2,
    ;
}

/// A full-intensity input byte scales to exactly the scale factor.
pub proof fn lemma_scale_full_byte(s: u8)
    ensures
        spec_scale(255, s) == s,
{
    assert((255 * s) / 255 == s) by (nonlinear_arith);
}

/// A zero scale factor yields zero (the LED stays dark) for every input byte.
pub proof fn lemma_scale_zero_scale(b: u8)
    ensures
        spec_scale(b, 0) == 0,
{
}

/// Scale one channel: `floor(b * s / 255)`, computed in 32-bit arithmetic so
/// the intermediate product (at most `255 * 255`) cannot overflow.
pub fn scale_channel(b: u8, s: u8) -> (r: u8)
    ensures
        r == spec_scale(b, s),
        r <= s,
{
    proof {
        lemma_scale_bounds(b, s);
    }
    let wide: u32 = (b as u32) * (s as u32) / 255;
    wide as u8
}

/// One RGB color, fresh each cycle and consumed by the LED driver.
#[derive(Clone, Copy, Debug, PartialEq, Eq, Structural)]
pub struct Rgb {
    pub r: u8,
    pub g: u8,
    pub b: u8,
}

/// Build the color for one cycle: every channel scaled independently by the
/// same factor.
pub fn scaled_color(b0: u8, b1: u8, b2: u8, s: u8) -> (c: Rgb)
    ensures
        c.r == spec_scale(b0, s),
        c.g == spec_scale(b1, s),
        c.b == spec_scale(b2, s),
        c.r <= s && c.g <= s && c.b <= s,
{
    Rgb { r: scale_channel(b0, s), g: scale_channel(b1, s), b: scale_channel(b2, s) }
}

} // verus!
