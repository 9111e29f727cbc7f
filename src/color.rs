//! Colors and the fixed-point lightness scale used to shade block faces.
use vstd::prelude::*;

verus! {

/// A color with one byte per channel.
#[derive(Clone, Copy, Debug, PartialEq, Eq, Structural)]
pub struct Rgba {
    pub r: u8,
    pub g: u8,
    pub b: u8,
    pub a: u8,
}

impl Rgba {
    pub fn new(r: u8, g: u8, b: u8, a: u8) -> (c: Rgba)
        ensures
            c == (Rgba { r, g, b, a }),
    {
        Rgba { r, g, b, a }
    }
}

/// The fixed-point factor that stands for 1.0: factors carry eight fractional
/// bits.
pub const FACTOR_ONE: i32 = 256;

/// The largest fixed-point factor, just under 2.0.
pub const FACTOR_MAX: i32 = 511;

/// A fixed-point factor clamped to `0..=FACTOR_MAX`.
pub open spec fn clamped_factor(factor_q8: int) -> int {
    if factor_q8 < 0 {
        0
    } else if factor_q8 > FACTOR_MAX {
        FACTOR_MAX as int
    } else {
        factor_q8
    }
}

/// One channel scaled by a fixed-point factor, rounded down and clamped to the
/// channel's largest value.
pub open spec fn scaled_channel(channel: u8, factor_q8: int) -> int {
    let v = (channel as int * clamped_factor(factor_q8)) / 256;
    if v > 255 {
        255
    } else {
        v
    }
}

/// A color with its red, green and blue channels scaled by a fixed-point
/// factor and its alpha kept.
pub open spec fn scaled_color(c: Rgba, factor_q8: int) -> Rgba {
    Rgba {
        r: scaled_channel(c.r, factor_q8) as u8,
        g: scaled_channel(c.g, factor_q8) as u8,
        b: scaled_channel(c.b, factor_q8) as u8,
        a: c.a,
    }
}

/// Clamps a fixed-point factor to `0..=FACTOR_MAX`.
pub fn clamp_factor_q8(factor_q8: i32) -> (r: u16)
    ensures
        r as int == clamped_factor(factor_q8 as int),
{
    if factor_q8 < 0 {
        0
    } else if factor_q8 > FACTOR_MAX {
        FACTOR_MAX as u16
    } else {
        factor_q8 as u16
    }
}

/// Scales one channel by a clamped fixed-point factor.
fn scale_channel(channel: u8, factor: u16) -> (r: u8)
    requires
        factor as int == clamped_factor(factor as int),
    ensures
        r as int == scaled_channel(channel, factor as int),
{
    assert((channel as int) * (factor as int) <= 255 * 511) by (nonlinear_arith)
        requires
            channel <= 255,
            factor <= 511,
    ;
    let v: u32 = (channel as u32 * factor as u32) / 256;
    if v > 255 {
        255
    } else {
        v as u8
    }
}

/// Scales the lightness of a color: red, green and blue are each multiplied by
/// the fixed-point factor `factor_q8` (256 stands for 1.0), which is first
/// clamped to `0..=FACTOR_MAX`; each result is rounded down and clamped to 255.
/// Alpha is kept.
pub fn scale_lightness_q8(c: Rgba, factor_q8: i32) -> (r: Rgba)
    ensures
        r == scaled_color(c, factor_q8 as int),
{
    let factor = clamp_factor_q8(factor_q8);
    Rgba {
        r: scale_channel(c.r, factor),
        g: scale_channel(c.g, factor),
        b: scale_channel(c.b, factor),
        a: c.a,
    }
}

/// The factor that stands for 1.0 leaves every color as it is.
pub proof fn lemma_unit_factor_identity(c: Rgba)
    ensures
        scaled_color(c, FACTOR_ONE as int) == c,
{
    lemma_unit_factor_channel(c.r);
    lemma_unit_factor_channel(c.g);
    lemma_unit_factor_channel(c.b);
}

proof fn lemma_unit_factor_channel(channel: u8)
    ensures
        scaled_channel(channel, FACTOR_ONE as int) == channel,
{
    assert((channel as int * 256) / 256 == channel) by (nonlinear_arith);
}

/// A factor of at most 1.0 makes no channel brighter.
pub proof fn lemma_dimming_never_brightens(c: Rgba, factor_q8: int)
    requires
        factor_q8 <= FACTOR_ONE,
    ensures
        scaled_color(c, factor_q8).r <= c.r,
        scaled_color(c, factor_q8).g <= c.g,
        scaled_color(c, factor_q8).b <= c.b,
        scaled_color(c, factor_q8).a == c.a,
{
    lemma_scaled_channel_at_most(c.r, factor_q8);
    lemma_scaled_channel_at_most(c.g, factor_q8);
    lemma_scaled_channel_at_most(c.b, factor_q8);
}

proof fn lemma_scaled_channel_at_most(channel: u8, factor_q8: int)
    requires
        factor_q8 <= FACTOR_ONE,
    ensures
        0 <= scaled_channel(channel, factor_q8) <= channel,
{
    let f = clamped_factor(factor_q8);
    assert(0 <= (channel as int * f) / 256 <= channel) by (nonlinear_arith)
        requires
            0 <= f <= 256,
            0 <= channel <= 255,
    ;
}

} // verus!
