//! Per-device colour weighting.
//!
//! A single normalized brightness scalar drives both hardware families.
//! Brightness is carried as a fixed-point fraction of [`BRIGHTNESS_SCALE`]:
//! `x` stands for the real value `x / 1000` in `[0, 1]`.  Each family maps
//! the scalar to its own RGB triple through fixed per-channel weights, so
//! the two families display visually matched colours for the same scalar.

use vstd::prelude::*;
use vstd::arithmetic::mul::lemma_mul_inequality;
use vstd::arithmetic::div_mod::lemma_div_is_ordered;

verus! {

/// Denominator of the fixed-point brightness scalar: 1000 stands for 1.0.
pub const BRIGHTNESS_SCALE: u16 = 1000;

/// Value of one colour channel: the channel's weight scaled by the
/// brightness fraction `x / 1000`, truncated.
pub open spec fn channel(weight: int, x: int) -> int {
    weight * x / 1000
}

/// One 8-bit channel from its weight and the brightness scalar.
pub fn scale_channel(weight: u8, x: u16) -> (c: u8)
    requires
        x <= BRIGHTNESS_SCALE,
    ensures
        c == channel(weight as int, x as int),
        c <= weight,
{
    proof {
        lemma_channel_bounded(weight as int, x as int);
    }
    (((weight as u32) * (x as u32)) / 1000) as u8
}

/// Each channel is bounded by its weight (and so stays in 8-bit range
/// whenever the weight does), for every admissible scalar.
pub proof fn lemma_channel_bounded(weight: int, x: int)
    requires
        0 <= weight,
        0 <= x <= 1000,
    ensures
        0 <= channel(weight, x) <= weight,
{
    lemma_mul_inequality(x, 1000, weight);
    assert(weight * x == x * weight) by (nonlinear_arith);
    assert(weight * 1000 == 1000 * weight) by (nonlinear_arith);
    lemma_div_is_ordered(weight * x, weight * 1000, 1000);
    assert(weight * 1000 / 1000 == weight) by (nonlinear_arith);
    assert(weight * x >= 0) by (nonlinear_arith)
        requires
            0 <= weight,
            0 <= x,
    ;
}

/// Each channel is monotonically non-decreasing in the brightness scalar.
pub proof fn lemma_channel_monotone(weight: int, x1: int, x2: int)
    requires
        0 <= weight,
        0 <= x1 <= x2,
    ensures
        channel(weight, x1) <= channel(weight, x2),
{
    lemma_mul_inequality(x1, x2, weight);
    assert(weight * x1 == x1 * weight) by (nonlinear_arith);
    assert(weight * x2 == x2 * weight) by (nonlinear_arith);
    lemma_div_is_ordered(weight * x1, weight * x2, 1000);
}

/// Red weight of the ARGB fan controller family.
pub const FAN_WEIGHT_R: u8 = 54;

/// Green weight of the ARGB fan controller family.
pub const FAN_WEIGHT_G: u8 = 28;

/// Blue weight of the ARGB fan controller family.
pub const FAN_WEIGHT_B: u8 = 15;

/// Red weight of the DRAM controller family.
pub const DRAM_WEIGHT_R: u8 = 89;

/// Green weight of the DRAM controller family.
pub const DRAM_WEIGHT_G: u8 = 60;

/// Blue weight of the DRAM controller family.
pub const DRAM_WEIGHT_B: u8 = 46;

/// RGB triple shown by the ARGB fan controllers for a brightness scalar.
pub fn fan_colour(x: u16) -> (rgb: (u8, u8, u8))
    requires
        x <= BRIGHTNESS_SCALE,
    ensures
        rgb.0 == channel(FAN_WEIGHT_R as int, x as int),
        rgb.1 == channel(FAN_WEIGHT_G as int, x as int),
        rgb.2 == channel(FAN_WEIGHT_B as int, x as int),
{
    (
        scale_channel(FAN_WEIGHT_R, x),
        scale_channel(FAN_WEIGHT_G, x),
        scale_channel(FAN_WEIGHT_B, x),
    )
}

/// RGB triple shown by the DRAM controllers for a brightness scalar.
pub fn dram_colour(x: u16) -> (rgb: (u8, u8, u8))
    requires
        x <= BRIGHTNESS_SCALE,
    ensures
        rgb.0 == channel(DRAM_WEIGHT_R as int, x as int),
        rgb.1 == channel(DRAM_WEIGHT_G as int, x as int),
        rgb.2 == channel(DRAM_WEIGHT_B as int, x as int),
{
    (
        scale_channel(DRAM_WEIGHT_R, x),
        scale_channel(DRAM_WEIGHT_G, x),
        scale_channel(DRAM_WEIGHT_B, x),
    )
}

} // verus!
