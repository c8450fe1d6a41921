//! Q16.16 fixed-point scalars.
//!
//! Every synthesis parameter (oscillator mix, detune, voice gain, master
//! gain, frequency) and every amplitude in this library is a signed integer
//! carrying sixteen fractional bits: the value `v` stands for the real
//! number `v / 65536`. Products of two Q16.16 values are rescaled by one
//! factor of [`SCALE`]; the rescaling division truncates toward zero, which
//! [`tdiv`] captures exactly.

use vstd::prelude::*;
use vstd::arithmetic::div_mod::{
    lemma_div_is_ordered, lemma_div_denominator, lemma_div_multiples_vanish,
    lemma_div_pos_is_pos, lemma_div_nonincreasing, lemma_fundamental_div_mod,
    lemma_fundamental_div_mod_converse_div, lemma_mod_division_less_than_divisor,
};

verus! {

/// One unit (the real value 1.0) in Q16.16 fixed point.
pub const SCALE: i64 = 65536;

/// `SCALE * SCALE`: rescales a product of two Q16.16 factors.
pub const SCALE_SQ: i64 = 4294967296;

/// `SCALE * SCALE * SCALE`: rescales a product of three Q16.16 factors.
pub const SCALE_CUBED: i64 = 281474976710656;

/// Largest parameter magnitude the mixer accepts (16384.0 in Q16.16).
/// Parameters are stored unclamped, but the render path limits them to
/// this range so that a triple product still fits in 128 bits.
pub const PARAM_LIMIT: i64 = 1073741824;

/// Integer division truncating toward zero, the rounding Rust's `/`
/// performs. Spec-level `/` is Euclidean, so the negative case is spelled
/// out through the magnitude.
pub open spec fn tdiv(v: int, d: int) -> int {
    if v >= 0 {
        v / d
    } else {
        -((-v) / d)
    }
}

/// Truncating division never moves a value across zero and never grows
/// its magnitude.
pub proof fn lemma_tdiv_sign(v: int, d: int)
    requires
        d > 0,
    ensures
        v >= 0 ==> 0 <= tdiv(v, d) <= v,
        v < 0 ==> v <= tdiv(v, d) <= 0,
{
    if v >= 0 {
        lemma_div_pos_is_pos(v, d);
        lemma_div_nonincreasing(v, d);
    } else {
        lemma_div_pos_is_pos(-v, d);
        lemma_div_nonincreasing(-v, d);
    }
}

/// A dividend bounded by `bound * d` in magnitude divides down to a
/// quotient bounded by `bound`.
pub proof fn lemma_tdiv_bound(v: int, d: int, bound: int)
    requires
        d > 0,
        bound >= 0,
        -(bound * d) <= v <= bound * d,
    ensures
        -bound <= tdiv(v, d) <= bound,
{
    if v >= 0 {
        lemma_div_is_ordered(v, bound * d, d);
        lemma_div_multiples_vanish(bound, d);
        assert(bound * d == d * bound) by (nonlinear_arith);
        lemma_div_pos_is_pos(v, d);
    } else {
        lemma_div_is_ordered(-v, bound * d, d);
        lemma_div_multiples_vanish(bound, d);
        assert(bound * d == d * bound) by (nonlinear_arith);
        lemma_div_pos_is_pos(-v, d);
    }
}

/// Truncating division by a positive divisor is monotone.
pub proof fn lemma_tdiv_monotone(x: int, y: int, d: int)
    requires
        x <= y,
        d > 0,
    ensures
        tdiv(x, d) <= tdiv(y, d),
{
    if x >= 0 {
        lemma_div_is_ordered(x, y, d);
    } else if y < 0 {
        lemma_div_is_ordered(-y, -x, d);
    } else {
        lemma_div_pos_is_pos(-x, d);
        lemma_div_pos_is_pos(y, d);
    }
}

/// A common positive factor of the dividend and the divisor cancels out
/// of a truncating division.
pub proof fn lemma_tdiv_cancel(c: int, v: int, d: int)
    requires
        c > 0,
        d > 0,
    ensures
        tdiv(c * v, c * d) == tdiv(v, d),
{
    if v >= 0 {
        assert(c * v >= 0) by (nonlinear_arith)
            requires c > 0 && v >= 0;
        lemma_div_denominator(c * v, c, d);
        lemma_div_multiples_vanish(v, c);
        assert(c * v / c == v);
        assert(c * v / (c * d) == (c * v / c) / d);
    } else {
        assert(c * v < 0) by (nonlinear_arith)
            requires c > 0 && v < 0;
        assert(-(c * v) == c * (-v)) by (nonlinear_arith);
        lemma_div_denominator(c * (-v), c, d);
        lemma_div_multiples_vanish(-v, c);
        assert(c * (-v) / c == -v);
        assert(c * (-v) / (c * d) == (c * (-v) / c) / d);
    }
}

/// Runs [`tdiv`] on 128-bit integers.
pub fn tdiv_i128(v: i128, d: i128) -> (r: i128)
    requires
        d > 0,
        v > i128::MIN,
    ensures
        r == tdiv(v as int, d as int),
{
    proof {
        lemma_tdiv_sign(v as int, d as int);
    }
    if v >= 0 {
        v / d
    } else {
        -((-v) / d)
    }
}

/// Runs [`tdiv`] on 64-bit integers.
pub fn tdiv_i64(v: i64, d: i64) -> (r: i64)
    requires
        d > 0,
        v > i64::MIN,
    ensures
        r == tdiv(v as int, d as int),
{
    proof {
        lemma_tdiv_sign(v as int, d as int);
    }
    if v >= 0 {
        v / d
    } else {
        -((-v) / d)
    }
}

/// Euclidean division almost distributes over addition: the sum's
/// quotient exceeds the quotients' sum by at most the one carried
/// remainder.
proof fn lemma_floor_div_add(x: int, y: int, d: int)
    requires
        d > 0,
    ensures
        x / d + y / d <= (x + y) / d <= x / d + y / d + 1,
{
    lemma_fundamental_div_mod(x, d);
    lemma_fundamental_div_mod(y, d);
    lemma_mod_division_less_than_divisor(x, d);
    lemma_mod_division_less_than_divisor(y, d);
    let q = x / d + y / d;
    let r = x % d + y % d;
    assert(x + y == q * d + r) by (nonlinear_arith)
        requires
            x == d * (x / d) + x % d,
            y == d * (y / d) + y % d,
            q == x / d + y / d,
            r == x % d + y % d,
    ;
    if r < d {
        lemma_fundamental_div_mod_converse_div(x + y, d, q, r);
    } else {
        assert(x + y == (q + 1) * d + (r - d)) by (nonlinear_arith)
            requires
                x + y == q * d + r,
    ;
        lemma_fundamental_div_mod_converse_div(x + y, d, q + 1, r - d);
    }
}

/// Truncation toward zero sits on or one above the Euclidean quotient.
proof fn lemma_tdiv_vs_floor(v: int, d: int)
    requires
        d > 0,
    ensures
        v / d <= tdiv(v, d) <= v / d + 1,
{
    if v < 0 {
        lemma_fundamental_div_mod(v, d);
        lemma_mod_division_less_than_divisor(v, d);
        let q = v / d;
        let r = v % d;
        if r == 0 {
            assert(-v == (-q) * d + 0) by (nonlinear_arith)
                requires
                    v == d * q + 0,
            ;
            lemma_fundamental_div_mod_converse_div(-v, d, -q, 0);
        } else {
            assert(-v == (-q - 1) * d + (d - r)) by (nonlinear_arith)
                requires
                    v == d * q + r,
            ;
            lemma_fundamental_div_mod_converse_div(-v, d, -q - 1, d - r);
        }
    }
}

/// Adding a nonnegative amount to the dividend moves the truncating
/// quotient up by at most the amount's own quotient plus one: successive
/// rescaled values cannot jump farther apart than the linear slope and
/// one unit of truncation.
pub proof fn lemma_tdiv_subadditive(x: int, y: int, d: int)
    requires
        d > 0,
        y >= 0,
    ensures
        tdiv(x + y, d) <= tdiv(x, d) + tdiv(y, d) + 1,
{
    lemma_floor_div_add(x, y, d);
    lemma_tdiv_vs_floor(x + y, d);
    lemma_tdiv_vs_floor(x, d);
    if x + y >= 0 {
        // tdiv(x + y, d) is the Euclidean quotient itself.
    } else {
        // Both x + y and x are negative; compare the two ceilings
        // through the magnitudes.
        let u = -(x + y);
        lemma_floor_div_add(u, y, d);
        assert(u + y == -x);
    }
}

/// Limits a raw parameter to the range the mixer accepts, leaving every
/// in-range value untouched.
pub fn clamp_param(v: i64) -> (r: i64)
    ensures
        r == clamp_param_spec(v as int),
{
    if v < -PARAM_LIMIT {
        -PARAM_LIMIT
    } else if v > PARAM_LIMIT {
        PARAM_LIMIT
    } else {
        v
    }
}

/// The value [`clamp_param`] returns.
pub open spec fn clamp_param_spec(v: int) -> int {
    if v < -PARAM_LIMIT {
        -PARAM_LIMIT as int
    } else if v > PARAM_LIMIT {
        PARAM_LIMIT as int
    } else {
        v
    }
}

} // verus!
