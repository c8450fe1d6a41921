//! The phase accumulator.
//!
//! The render context owns one running fractional position inside the
//! current waveform cycle. It is held as an exact rational: the numerator
//! counts `1 / (sample_rate * SCALE)`-ths of a cycle, so one advance per
//! rendered sample adds the Q16.16 frequency directly and the wrap at a
//! full cycle is an exact modulus — no drift ever accumulates, and
//! advancing for exactly one period returns the phase to its start.

use vstd::prelude::*;
use vstd::arithmetic::div_mod::{
    lemma_add_mod_noop, lemma_add_mod_noop_right, lemma_mod_division_less_than_divisor,
    lemma_small_mod, lemma_mod_self_0, lemma_div_pos_is_pos, lemma_div_is_ordered,
};
use vstd::arithmetic::mul::lemma_mul_strict_inequality;
use crate::fixed::{SCALE, PARAM_LIMIT};
use crate::osc::CYCLE;

verus! {

/// The running phase of the render context: `numer / denom` of one cycle,
/// with `denom` fixed at `sample_rate * SCALE` so that one advance adds a
/// Q16.16 frequency without any rounding.
pub struct PhaseAcc {
    /// Position within the cycle, in `1 / denom`-ths of a cycle.
    pub numer: u64,
    /// `sample_rate * SCALE`.
    pub denom: u64,
}

impl PhaseAcc {
    /// The accumulator's invariant: the denominator belongs to a positive
    /// sample rate and the position lies inside one cycle.
    pub open spec fn wf(&self) -> bool {
        &&& self.denom > 0
        &&& self.denom <= 0x1000000000000
        &&& self.numer < self.denom
    }

    /// A fresh accumulator at phase zero for the negotiated sample rate.
    pub fn new(sample_rate: u32) -> (r: PhaseAcc)
        requires
            sample_rate > 0,
        ensures
            r.wf(),
            r.numer == 0,
            r.denom == sample_rate * SCALE,
    {
        proof {
            assert(0 < sample_rate as int * SCALE as int <= 0x1000000000000)
                by (nonlinear_arith)
                requires
                    0 < sample_rate as int <= 0xffffffff,
            ;
        }
        PhaseAcc { numer: 0, denom: (sample_rate as u64) * (SCALE as u64) }
    }

    /// The position after one advance by `step`.
    pub open spec fn advanced(&self, step: int) -> int {
        (self.numer + step) % (self.denom as int)
    }

    /// Advances the phase by one sample: add the Q16.16 frequency, wrap at
    /// a full cycle.
    pub fn advance(&mut self, step: u64)
        requires
            old(self).wf(),
            step <= PARAM_LIMIT,
        ensures
            final(self).wf(),
            final(self).denom == old(self).denom,
            final(self).numer == old(self).advanced(step as int),
    {
        proof {
            lemma_mod_division_less_than_divisor(
                self.numer as int + step as int,
                self.denom as int,
            );
        }
        self.numer = (self.numer + step) % self.denom;
    }

    /// The phase as a 32-bit fraction of one cycle, truncated.
    pub fn current_q32(&self) -> (r: u32)
        requires
            self.wf(),
        ensures
            r == phase_q32(self.numer as int, self.denom as int),
    {
        proof {
            lemma_mul_strict_inequality(
                self.numer as int,
                self.denom as int,
                CYCLE as int,
            );
            lemma_div_is_ordered(
                self.numer as int * CYCLE as int,
                self.denom as int * CYCLE as int - 1,
                self.denom as int,
            );
            lemma_cycle_quotient(self.denom as int);
            lemma_div_pos_is_pos(self.numer as int * CYCLE as int, self.denom as int);
        }
        (((self.numer as u128) * (CYCLE as u128)) / (self.denom as u128)) as u32
    }
}

/// The 32-bit rendering of an exact phase `numer / denom`.
pub open spec fn phase_q32(numer: int, denom: int) -> int {
    numer * CYCLE / denom
}

/// `(denom * CYCLE - 1) / denom` stays below `CYCLE`.
proof fn lemma_cycle_quotient(denom: int)
    requires
        denom > 0,
    ensures
        (denom * CYCLE - 1) / denom < CYCLE as int,
{
    assert((denom * CYCLE - 1) / denom < CYCLE as int) by (nonlinear_arith)
        requires
            denom > 0,
    ;
}

/// The phase reached after `k` advances by `step` from position `numer`.
pub open spec fn advanced_by(numer: int, step: int, k: int, denom: int) -> int {
    (numer + k * step) % denom
}

/// Advancing one step at a time agrees with [`advanced_by`]: the wrap
/// after every sample loses nothing against wrapping once at the end.
pub proof fn lemma_advance_chain(numer: int, step: int, k: int, denom: int)
    requires
        denom > 0,
        k >= 0,
        0 <= numer < denom,
    ensures
        (advanced_by(numer, step, k, denom) + step) % denom
            == advanced_by(numer, step, k + 1, denom),
{
    lemma_add_mod_noop(numer + k * step, step, denom);
    lemma_add_mod_noop_right((numer + k * step) % denom, step, denom);
    assert(numer + k * step + step == numer + (k + 1) * step) by (nonlinear_arith);
}

/// Phase round trip: whenever `k` whole steps make up a whole number of
/// cycles — in particular after `sample_rate / frequency` samples when
/// that ratio is an integer — the accumulator returns exactly to its
/// starting position.
pub proof fn lemma_phase_round_trip(numer: int, step: int, k: int, denom: int)
    requires
        denom > 0,
        0 <= numer < denom,
        (k * step) % denom == 0,
    ensures
        advanced_by(numer, step, k, denom) == numer,
{
    lemma_add_mod_noop_right(numer, k * step, denom);
    lemma_small_mod(numer as nat, denom as nat);
}

/// The integer-period case of the round trip: if `k` steps span exactly
/// one cycle (`k * step == denom`, i.e. `frequency * k == sample_rate`),
/// the phase comes back to its start after `k` samples.
pub proof fn lemma_phase_round_trip_one_period(numer: int, step: int, k: int, denom: int)
    requires
        denom > 0,
        0 <= numer < denom,
        k * step == denom,
    ensures
        advanced_by(numer, step, k, denom) == numer,
{
    lemma_mod_self_0(denom);
    lemma_phase_round_trip(numer, step, k, denom);
}

} // verus!
