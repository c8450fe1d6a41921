//! The two-oscillator synthesis function.
//!
//! One output sample is a linear cross-fade between two unit sine waves —
//! one at the base phase, one at the base phase shifted by a small
//! detune-derived offset — scaled by the voice gain and the master gain.
//!
//! Phases are unsigned 32-bit fractions of one waveform cycle (`p` stands
//! for the cycle position `p / 2^32`). The sine evaluations themselves are
//! not computed here: the embedding program evaluates the two sines at the
//! phases this module derives and hands the amplitudes back as Q16.16
//! values, so the whole mixing arithmetic stays exact and verified.

use vstd::prelude::*;
use vstd::arithmetic::mul::lemma_mul_inequality;
use vstd::arithmetic::div_mod::{
    lemma_add_mod_noop_right, lemma_fundamental_div_mod, lemma_fundamental_div_mod_converse_mod,
    lemma_mod_division_less_than_divisor, lemma_small_mod, lemma_mod_self_0,
};
use crate::fixed::{
    SCALE, SCALE_SQ, SCALE_CUBED, PARAM_LIMIT, tdiv, tdiv_i64, tdiv_i128, lemma_tdiv_monotone,
    lemma_tdiv_cancel, lemma_tdiv_sign, lemma_tdiv_bound, lemma_tdiv_subadditive,
};

verus! {

/// One full waveform cycle in 32-bit phase units.
pub const CYCLE: i64 = 4294967296;

/// Divisor of the ad-hoc detune scaling: a detune of one unit shifts the
/// second oscillator by one thousandth of a cycle. This is a demo-calibrated
/// beat-effect constant, not a musical interval.
pub const DETUNE_DIV: i64 = 1000;

/// Largest sine amplitude the mixer accepts: two units in Q16.16, twice
/// the range a true sine can reach.
pub const AMP_LIMIT: i64 = 131072;

/// The phase offset, in 32-bit phase units, that a Q16.16 detune value
/// produces.
pub open spec fn detune_offset(d: int) -> int {
    tdiv(d * SCALE, DETUNE_DIV as int)
}

/// The detuned oscillator's phase: the base phase plus the detune offset,
/// wrapped into one cycle.
pub open spec fn detuned_phase_spec(p: int, d: int) -> int {
    (p + detune_offset(d)) % (CYCLE as int)
}

/// Wraps the detune offset onto the base phase.
pub fn detuned_phase(p: u32, d: i64) -> (r: u32)
    requires
        -PARAM_LIMIT <= d <= PARAM_LIMIT,
    ensures
        r == detuned_phase_spec(p as int, d as int),
{
    let off: i64 = tdiv_i64(d * SCALE, DETUNE_DIV);
    proof {
        lemma_tdiv_sign((d * SCALE) as int, DETUNE_DIV as int);
    }
    let off_mod: u64 = if off >= 0 {
        (off as u64) % (CYCLE as u64)
    } else {
        proof {
            lemma_euclidean_mod_negative(off as int, CYCLE as int);
            lemma_mod_division_less_than_divisor(-off as int, CYCLE as int);
        }
        ((CYCLE as u64) - (((-off) as u64) % (CYCLE as u64))) % (CYCLE as u64)
    };
    assert(off_mod == off as int % (CYCLE as int));
    proof {
        lemma_add_mod_noop_right(p as int, off as int, CYCLE as int);
        lemma_mod_division_less_than_divisor(p as int + off_mod as int, CYCLE as int);
    }
    (((p as u64) + off_mod) % (CYCLE as u64)) as u32
}

/// For a negative value, the Euclidean remainder is the divisor minus the
/// remainder of the magnitude, wrapped once more.
proof fn lemma_euclidean_mod_negative(v: int, m: int)
    requires
        v < 0,
        m > 0,
    ensures
        v % m == (m - ((-v) % m)) % m,
{
    let x = (-v) % m;
    lemma_mod_division_less_than_divisor(-v, m);
    lemma_fundamental_div_mod(-v, m);
    let q = (-v) / m;
    if x == 0 {
        assert(v == (-q) * m + 0) by (nonlinear_arith)
            requires -v == m * q + 0;
        lemma_fundamental_div_mod_converse_mod(v, m, -q, 0);
        lemma_mod_self_0(m);
    } else {
        assert(v == (-q - 1) * m + (m - x)) by (nonlinear_arith)
            requires -v == m * q + x;
        lemma_fundamental_div_mod_converse_mod(v, m, -q - 1, m - x);
        lemma_small_mod((m - x) as nat, m as nat);
    }
}

/// The synthesized sample: the two sine amplitudes blended with the
/// oscillator-mix weight, then scaled by the voice gain and the master
/// gain. All factors carry sixteen fractional bits, so the triple product
/// is rescaled by `SCALE` three times, truncating toward zero.
pub open spec fn mix_spec(a: int, b: int, m: int, g: int, mg: int) -> int {
    tdiv((((SCALE - m) * a + m * b) * g) * mg, SCALE_CUBED as int)
}

/// Computes [`mix_spec`] on machine integers.
///
/// The amplitude bounds are what a (possibly slightly over-unit) sine
/// evaluation can produce; the parameter bounds are the mixer's admission
/// range, which the render path establishes by clamping its snapshot.
/// Both exist only so the 128-bit intermediate products cannot overflow.
pub fn mix_sample(a: i64, b: i64, m: i64, g: i64, mg: i64) -> (r: i64)
    requires
        -AMP_LIMIT <= a <= AMP_LIMIT,
        -AMP_LIMIT <= b <= AMP_LIMIT,
        -PARAM_LIMIT <= m <= PARAM_LIMIT,
        -PARAM_LIMIT <= g <= PARAM_LIMIT,
        -PARAM_LIMIT <= mg <= PARAM_LIMIT,
    ensures
        r == mix_spec(a as int, b as int, m as int, g as int, mg as int),
{
    let w: i128 = (SCALE as i128) - (m as i128);
    proof {
        lemma_mul_magnitude(w as int, a as int, 0x80000000, AMP_LIMIT as int);
        lemma_mul_magnitude(m as int, b as int, PARAM_LIMIT as int, AMP_LIMIT as int);
    }
    let blended: i128 = w * (a as i128) + (m as i128) * (b as i128);
    proof {
        lemma_mul_magnitude(blended as int, g as int, 0x3000000000000, PARAM_LIMIT as int);
    }
    let with_gain: i128 = blended * (g as i128);
    proof {
        lemma_mul_magnitude(with_gain as int, mg as int, 0xc0000000000000000000, PARAM_LIMIT as int);
    }
    let num: i128 = with_gain * (mg as i128);
    let q: i128 = tdiv_i128(num, SCALE_CUBED as i128);
    proof {
        lemma_tdiv_bound(num as int, SCALE_CUBED as int, 0x4000000000000000);
    }
    q as i64
}

/// The product of two values bounded in magnitude is bounded by the
/// product of the bounds.
proof fn lemma_mul_magnitude(x: int, y: int, bx: int, by: int)
    requires
        -bx <= x <= bx,
        -by <= y <= by,
    ensures
        -(bx * by) <= x * y <= bx * by,
{
    assert(-(bx * by) <= x * y <= bx * by) by (nonlinear_arith)
        requires
            -bx <= x <= bx,
            -by <= y <= by,
    ;
}

/// With the oscillator mix at zero the sample is the base sine scaled by
/// the two gains — the detuned sine does not enter at all.
pub proof fn lemma_mix_pure_base(a: int, b: int, g: int, mg: int)
    ensures
        mix_spec(a, b, 0, g, mg) == tdiv((a * g) * mg, SCALE_SQ as int),
{
    assert((((SCALE - 0) * a + 0 * b) * g) * mg == (SCALE as int) * ((a * g) * mg))
        by (nonlinear_arith);
    assert((SCALE as int) * (SCALE_SQ as int) == SCALE_CUBED as int);
    lemma_tdiv_cancel(SCALE as int, (a * g) * mg, SCALE_SQ as int);
}

/// With the oscillator mix at one unit the sample is the detuned sine
/// scaled by the two gains, whatever the base sine was.
pub proof fn lemma_mix_pure_detuned(a: int, b: int, g: int, mg: int)
    ensures
        mix_spec(a, b, SCALE as int, g, mg) == tdiv((b * g) * mg, SCALE_SQ as int),
{
    assert((((SCALE - SCALE) * a + SCALE * b) * g) * mg == (SCALE as int) * ((b * g) * mg))
        by (nonlinear_arith);
    assert((SCALE as int) * (SCALE_SQ as int) == SCALE_CUBED as int);
    lemma_tdiv_cancel(SCALE as int, (b * g) * mg, SCALE_SQ as int);
}

/// Swapping the two sines while reflecting the mix weight leaves the
/// sample unchanged: the cross-fade is symmetric.
pub proof fn lemma_mix_symmetric(a: int, b: int, m: int, g: int, mg: int)
    ensures
        mix_spec(a, b, m, g, mg) == mix_spec(b, a, SCALE - m, g, mg),
{
    assert((SCALE - m) * a + m * b == (SCALE - (SCALE - m)) * b + (SCALE - m) * a);
}

/// Sweeping the mix weight upward moves the sample monotonically from the
/// base-sine value toward the detuned-sine value whenever the detuned
/// amplitude is at least the base amplitude and the gains are nonnegative.
pub proof fn lemma_mix_monotone(a: int, b: int, m1: int, m2: int, g: int, mg: int)
    requires
        a <= b,
        m1 <= m2,
        g >= 0,
        mg >= 0,
    ensures
        mix_spec(a, b, m1, g, mg) <= mix_spec(a, b, m2, g, mg),
{
    let n1 = (SCALE - m1) * a + m1 * b;
    let n2 = (SCALE - m2) * a + m2 * b;
    assert(n1 <= n2) by (nonlinear_arith)
        requires
            a <= b,
            m1 <= m2,
            n1 == (SCALE - m1) * a + m1 * b,
            n2 == (SCALE - m2) * a + m2 * b,
    ;
    lemma_mul_inequality(n1, n2, g);
    lemma_mul_inequality(n1 * g, n2 * g, mg);
    lemma_tdiv_monotone((n1 * g) * mg, (n2 * g) * mg, SCALE_CUBED as int);
}

/// The cross-fade has no discontinuity: raising the mix weight moves the
/// sample by at most the linear slope between the two pure-wave values
/// plus one unit of truncation. Together with [`lemma_mix_monotone`],
/// the sweep from the base wave to the detuned wave is monotone and
/// proceeds in steps no larger than the weight change itself warrants.
pub proof fn lemma_mix_step(a: int, b: int, m1: int, m2: int, g: int, mg: int)
    requires
        a <= b,
        m1 <= m2,
        g >= 0,
        mg >= 0,
    ensures
        mix_spec(a, b, m2, g, mg) - mix_spec(a, b, m1, g, mg) <= tdiv(
            ((m2 - m1) * (b - a) * g) * mg,
            SCALE_CUBED as int,
        ) + 1,
{
    let n1 = (((SCALE - m1) * a + m1 * b) * g) * mg;
    let n2 = (((SCALE - m2) * a + m2 * b) * g) * mg;
    let diff = ((m2 - m1) * (b - a) * g) * mg;
    assert(n2 == n1 + diff && diff >= 0) by (nonlinear_arith)
        requires
            a <= b,
            m1 <= m2,
            g >= 0,
            mg >= 0,
            n1 == (((SCALE - m1) * a + m1 * b) * g) * mg,
            n2 == (((SCALE - m2) * a + m2 * b) * g) * mg,
            diff == ((m2 - m1) * (b - a) * g) * mg,
    ;
    lemma_tdiv_subadditive(n1, diff, SCALE_CUBED as int);
}

/// Anywhere in a full sweep of the mix weight, the sample stays between
/// the two pure-wave values: the cross-fade never leaves the interval the
/// endpoints span, so there is no discontinuity to step over.
pub proof fn lemma_mix_bounded(a: int, b: int, m: int, g: int, mg: int)
    requires
        0 <= m <= SCALE,
        g >= 0,
        mg >= 0,
    ensures
        mix_spec(a, b, 0, g, mg) <= mix_spec(a, b, SCALE as int, g, mg) ==> (
            mix_spec(a, b, 0, g, mg) <= mix_spec(a, b, m, g, mg)
                <= mix_spec(a, b, SCALE as int, g, mg)
        ),
        mix_spec(a, b, SCALE as int, g, mg) <= mix_spec(a, b, 0, g, mg) ==> (
            mix_spec(a, b, SCALE as int, g, mg) <= mix_spec(a, b, m, g, mg)
                <= mix_spec(a, b, 0, g, mg)
        ),
{
    if a <= b {
        lemma_mix_monotone(a, b, 0, m, g, mg);
        lemma_mix_monotone(a, b, m, SCALE as int, g, mg);
    } else {
        lemma_mix_symmetric(a, b, 0, g, mg);
        lemma_mix_symmetric(a, b, m, g, mg);
        lemma_mix_symmetric(a, b, SCALE as int, g, mg);
        lemma_mix_monotone(b, a, 0, SCALE - m, g, mg);
        lemma_mix_monotone(b, a, SCALE - m, SCALE as int, g, mg);
    }
}

} // verus!
