//! Output-format conversion.
//!
//! The synthesis function produces normalized Q16.16 amplitudes, in
//! principle unbounded because the gains are. Fixed-point device formats
//! clamp the amplitude to one unit either side of zero and rescale it to
//! the format's range, truncating toward zero; a floating-point device
//! format takes the amplitude through unclamped, so it has no conversion
//! here — the embedding program only divides by `SCALE`.

use vstd::prelude::*;
use crate::fixed::{SCALE, tdiv, lemma_tdiv_monotone};

verus! {

/// The largest positive value of the signed 16-bit sample format.
pub const I16_PEAK: i64 = 32767;

/// The largest value of the unsigned 16-bit sample format.
pub const U16_PEAK: i64 = 65535;

/// An amplitude limited to one unit either side of zero.
pub open spec fn clamp_unit_spec(s: int) -> int {
    if s < -SCALE {
        -SCALE as int
    } else if s > SCALE {
        SCALE as int
    } else {
        s
    }
}

/// Limits an amplitude to one unit either side of zero.
pub fn clamp_unit(s: i64) -> (r: i64)
    ensures
        r == clamp_unit_spec(s as int),
{
    if s < -SCALE {
        -SCALE
    } else if s > SCALE {
        SCALE
    } else {
        s
    }
}

/// The signed 16-bit rendering of an amplitude: clamp to one unit, scale
/// to the format's maximum magnitude, truncate toward zero.
pub open spec fn to_i16_spec(s: int) -> int {
    tdiv(clamp_unit_spec(s) * I16_PEAK, SCALE as int)
}

/// Converts one amplitude to the signed 16-bit sample format.
pub fn sample_to_i16(s: i64) -> (r: i16)
    ensures
        r == to_i16_spec(s as int),
{
    let c: i64 = clamp_unit(s);
    proof {
        lemma_i16_extremes(s as int);
    }
    if c >= 0 {
        ((c * I16_PEAK) / SCALE) as i16
    } else {
        (-((-c * I16_PEAK) / SCALE)) as i16
    }
}

/// The unsigned 16-bit rendering of an amplitude: clamp to one unit,
/// shift the range `[-1, 1]` onto `[0, 1]`, scale to the format's
/// maximum. The shifted numerator is never negative, so plain integer
/// division is already the truncation.
pub open spec fn to_u16_spec(s: int) -> int {
    (clamp_unit_spec(s) + SCALE) * U16_PEAK / (2 * SCALE)
}

/// Converts one amplitude to the unsigned 16-bit sample format.
pub fn sample_to_u16(s: i64) -> (r: u16)
    ensures
        r == to_u16_spec(s as int),
{
    let c: i64 = clamp_unit(s);
    proof {
        lemma_u16_in_range(s as int);
    }
    (((c + SCALE) * U16_PEAK) / (2 * SCALE)) as u16
}

/// Signed-format extremes: a full positive unit maps to the format's
/// peak, a full negative unit to the peak's negation, and anything beyond
/// a unit converts exactly as the unit itself — clamping happens before
/// scaling.
pub proof fn lemma_i16_extremes(s: int)
    ensures
        to_i16_spec(SCALE as int) == I16_PEAK,
        to_i16_spec(-SCALE as int) == -I16_PEAK as int,
        s >= SCALE ==> to_i16_spec(s) == to_i16_spec(SCALE as int),
        s <= -SCALE ==> to_i16_spec(s) == to_i16_spec(-SCALE as int),
        to_i16_spec(s) == to_i16_spec(clamp_unit_spec(s)),
        -I16_PEAK <= to_i16_spec(s) <= I16_PEAK,
{
    let c = clamp_unit_spec(s);
    assert(c * I16_PEAK <= SCALE as int * I16_PEAK) by (nonlinear_arith)
        requires
            c <= SCALE as int,
    ;
    assert((-SCALE as int) * I16_PEAK <= c * I16_PEAK) by (nonlinear_arith)
        requires
            c >= -SCALE as int,
    ;
    lemma_tdiv_monotone(c * I16_PEAK, SCALE as int * I16_PEAK, SCALE as int);
    lemma_tdiv_monotone((-SCALE as int) * I16_PEAK, c * I16_PEAK, SCALE as int);
    assert(SCALE as int * I16_PEAK / SCALE as int == I16_PEAK) by (nonlinear_arith);
}

/// Unsigned-format landmarks: a silent amplitude maps to mid-scale (one
/// below the exact midpoint, by truncation), a full negative unit to
/// zero, a full positive unit to the format's maximum, and anything
/// beyond a unit converts as the unit itself.
pub proof fn lemma_u16_landmarks(s: int)
    ensures
        to_u16_spec(0) == 32767,
        to_u16_spec(-SCALE as int) == 0,
        to_u16_spec(SCALE as int) == U16_PEAK,
        s >= SCALE ==> to_u16_spec(s) == U16_PEAK,
        s <= -SCALE ==> to_u16_spec(s) == 0,
        0 <= to_u16_spec(s) <= U16_PEAK,
{
    lemma_u16_in_range(s);
}

/// The unsigned rendering always lands inside the format's range.
proof fn lemma_u16_in_range(s: int)
    ensures
        0 <= to_u16_spec(s) <= U16_PEAK,
{
    let c = clamp_unit_spec(s);
    assert(0 <= (c + SCALE) * U16_PEAK / (2 * SCALE) <= U16_PEAK) by (nonlinear_arith)
        requires
            0 <= c + SCALE <= 2 * SCALE,
    ;
}

} // verus!
