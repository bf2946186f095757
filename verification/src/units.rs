//! Fixed-point scales and the arithmetic shared by the simulation systems.
//!
//! Lengths are counted in steps of one thousandth of a field unit, time in
//! microseconds, rates in steps per second, and the input axis and all
//! ratios (scale, colour, volume) in thousandths.

use vstd::prelude::*;

verus! {

/// Coordinate steps in one field unit.
pub const UNIT: i64 = 1000;

/// Width of the play field, in steps.
pub const FIELD_WIDTH: i64 = 432_000;

/// Height of the play field, in steps.
pub const FIELD_HEIGHT: i64 = 243_000;

/// Microseconds in one second.
pub const MICROS_PER_SECOND: i64 = 1_000_000;

/// Value of a ratio that stands for one: full axis deflection, scale one, a
/// saturated colour channel.
pub const WHOLE: i64 = 1000;

/// Quotient of `n` by a positive `d`, rounded toward zero.
pub open spec fn toward_zero(n: int, d: int) -> int {
    if n >= 0 {
        n / d
    } else {
        -((-n) / d)
    }
}

/// Distance covered in `micros` microseconds at `rate` steps per second.
pub open spec fn travel(rate: int, micros: int) -> int {
    toward_zero(rate * micros, MICROS_PER_SECOND as int)
}

/// `v` held to the range of a coordinate.
pub open spec fn saturated(v: int) -> int {
    if v < i64::MIN {
        i64::MIN as int
    } else if v > i64::MAX {
        i64::MAX as int
    } else {
        v
    }
}

/// The product of a signed 64-bit rate and an unsigned 64-bit duration fits
/// in 128 bits.
pub proof fn lemma_product_fits(rate: int, micros: int)
    by (nonlinear_arith)
    requires
        -0x8000_0000_0000_0000 <= rate <= 0x7fff_ffff_ffff_ffff,
        0 <= micros <= 0xffff_ffff_ffff_ffff,
    ensures
        -0x8000_0000_0000_0000 * 0xffff_ffff_ffff_ffff <= rate * micros,
        rate * micros <= 0x8000_0000_0000_0000 * 0xffff_ffff_ffff_ffff,
{
}

/// Computes [`travel`]. The magnitude of the result is below 2^108.
pub fn distance(rate: i64, micros: u64) -> (d: i128)
    ensures
        d == travel(rate as int, micros as int),
        -0x1000_0000_0000_0000_0000_0000_0000 < d < 0x1000_0000_0000_0000_0000_0000_0000,
{
    proof {
        lemma_product_fits(rate as int, micros as int);
    }
    let product: i128 = (rate as i128) * (micros as i128);
    product / 1_000_000
}

/// Computes [`saturated`].
pub fn saturate(v: i128) -> (r: i64)
    ensures
        r == saturated(v as int),
{
    if v < i64::MIN as i128 {
        i64::MIN
    } else if v > i64::MAX as i128 {
        i64::MAX
    } else {
        v as i64
    }
}

} // verus!
