//! The render path: what one output-callback invocation computes.
//!
//! A buffer is rendered from a parameter snapshot taken once at its
//! start. The work is split around the sine evaluations, which only the
//! embedding program can perform: first [`plan_phases`] advances the
//! phase accumulator sample by sample and lays out the base and detuned
//! phase of every frame; the embedding program evaluates the two sines at
//! those phases; then one of the `fill_frames_*` functions blends each
//! sine pair, converts it to the device's sample format, and writes the
//! identical value into every channel of the frame.

use vstd::prelude::*;
use vstd::arithmetic::div_mod::{lemma_small_mod, lemma_fundamental_div_mod_converse_div};
use vstd::arithmetic::mul::lemma_mul_is_distributive_add_other_way;
use crate::fixed::{PARAM_LIMIT, clamp_param, clamp_param_spec};
use crate::osc::{AMP_LIMIT, mix_spec, mix_sample, detuned_phase, detuned_phase_spec};
use crate::phase::{PhaseAcc, phase_q32, advanced_by, lemma_advance_chain};
use crate::convert::{to_i16_spec, to_u16_spec, sample_to_i16, sample_to_u16};

verus! {

/// The five parameters as one value, read from the shared store once per
/// buffer so that every frame of the buffer is rendered consistently.
pub struct ParamSnapshot {
    /// Oscillator cross-fade weight.
    pub osc_mix: i64,
    /// Detune amount.
    pub detune: i64,
    /// Per-voice gain.
    pub gain: i64,
    /// Master output gain.
    pub master_gain: i64,
    /// Output frequency, Q16.16 Hz, nonnegative.
    pub freq_hz: i64,
}

impl ParamSnapshot {
    /// The range the render path admits: every scalar within the mixer's
    /// limit, the frequency additionally nonnegative.
    pub open spec fn bounded(&self) -> bool {
        &&& -PARAM_LIMIT <= self.osc_mix <= PARAM_LIMIT
        &&& -PARAM_LIMIT <= self.detune <= PARAM_LIMIT
        &&& -PARAM_LIMIT <= self.gain <= PARAM_LIMIT
        &&& -PARAM_LIMIT <= self.master_gain <= PARAM_LIMIT
        &&& 0 <= self.freq_hz <= PARAM_LIMIT
    }

    /// The render-time safety clamp. Parameters are stored unclamped, so
    /// a snapshot may hold anything; rendering limits each scalar to the
    /// mixer's (far over-range) admission window and floors the frequency
    /// at zero. Values in the ranges the control surface offers pass
    /// through unchanged.
    pub fn sanitized(&self) -> (s: ParamSnapshot)
        ensures
            s.bounded(),
            s.osc_mix == clamp_param_spec(self.osc_mix as int),
            s.detune == clamp_param_spec(self.detune as int),
            s.gain == clamp_param_spec(self.gain as int),
            s.master_gain == clamp_param_spec(self.master_gain as int),
            s.freq_hz == if self.freq_hz <= 0 {
                0int
            } else {
                clamp_param_spec(self.freq_hz as int)
            },
    {
        ParamSnapshot {
            osc_mix: clamp_param(self.osc_mix),
            detune: clamp_param(self.detune),
            gain: clamp_param(self.gain),
            master_gain: clamp_param(self.master_gain),
            freq_hz: if self.freq_hz <= 0 {
                0
            } else {
                clamp_param(self.freq_hz)
            },
        }
    }
}

/// The amplitude one frame synthesizes under a snapshot, given the two
/// sine evaluations.
pub open spec fn rendered_sample(snap: ParamSnapshot, a: int, b: int) -> int {
    mix_spec(a, b, snap.osc_mix as int, snap.gain as int, snap.master_gain as int)
}

/// Both sines of every planned frame stay within the mixer's amplitude
/// window.
pub open spec fn sines_bounded(sines: Seq<(i64, i64)>) -> bool {
    forall|i: int|
        0 <= i < sines.len() ==> {
            &&& -AMP_LIMIT <= (#[trigger] sines[i]).0 <= AMP_LIMIT
            &&& -AMP_LIMIT <= sines[i].1 <= AMP_LIMIT
        }
}

/// The frame a flat buffer position belongs to: position `k` of a buffer
/// with `channels` samples per frame carries frame `k / channels`.
pub open spec fn frame_of(k: int, channels: int) -> int {
    k / channels
}

/// Advances the accumulator by one buffer of `n` frames and returns, for
/// every frame, the base phase and the detuned phase (32-bit cycle
/// fractions) at which the two sines are to be evaluated.
pub fn plan_phases(acc: &mut PhaseAcc, snap: &ParamSnapshot, n: usize) -> (r: Vec<(u32, u32)>)
    requires
        old(acc).wf(),
        snap.bounded(),
    ensures
        final(acc).wf(),
        final(acc).denom == old(acc).denom,
        final(acc).numer == advanced_by(
            old(acc).numer as int,
            snap.freq_hz as int,
            n as int,
            old(acc).denom as int,
        ),
        r@.len() == n,
        forall|i: int|
            0 <= i < n ==> {
                &&& (#[trigger] r@[i]).0 == phase_q32(
                    advanced_by(
                        old(acc).numer as int,
                        snap.freq_hz as int,
                        i,
                        old(acc).denom as int,
                    ),
                    old(acc).denom as int,
                )
                &&& r@[i].1 == detuned_phase_spec(r@[i].0 as int, snap.detune as int)
            },
{
    let ghost acc0 = *acc;
    proof {
        lemma_small_mod(acc0.numer as nat, acc0.denom as nat);
    }
    let step: u64 = snap.freq_hz as u64;
    let mut out: Vec<(u32, u32)> = Vec::new();
    let mut i: usize = 0;
    while i < n
        invariant
            acc.wf(),
            acc.denom == acc0.denom,
            acc0.wf(),
            snap.bounded(),
            step == snap.freq_hz,
            i <= n,
            acc.numer == advanced_by(acc0.numer as int, step as int, i as int, acc0.denom as int),
            out@.len() == i,
            forall|j: int|
                0 <= j < i ==> {
                    &&& (#[trigger] out@[j]).0 == phase_q32(
                        advanced_by(acc0.numer as int, step as int, j, acc0.denom as int),
                        acc0.denom as int,
                    )
                    &&& out@[j].1 == detuned_phase_spec(out@[j].0 as int, snap.detune as int)
                },
        decreases n - i,
    {
        let base = acc.current_q32();
        let det = detuned_phase(base, snap.detune);
        out.push((base, det));
        proof {
            lemma_advance_chain(acc0.numer as int, step as int, i as int, acc0.denom as int);
        }
        acc.advance(step);
        i = i + 1;
    }
    out
}

/// Blends each frame's sine pair under the snapshot and replicates the
/// signed 16-bit rendering of the result across all channels of the
/// frame.
pub fn fill_frames_i16(sines: &Vec<(i64, i64)>, snap: &ParamSnapshot, channels: usize) -> (out:
    Vec<i16>)
    requires
        snap.bounded(),
        sines_bounded(sines@),
        channels >= 1,
    ensures
        out@.len() == sines@.len() * channels,
        forall|k: int|
            0 <= k < out@.len() ==> #[trigger] out@[k] == to_i16_spec(
                rendered_sample(
                    *snap,
                    sines@[frame_of(k, channels as int)].0 as int,
                    sines@[frame_of(k, channels as int)].1 as int,
                ),
            ),
{
    let n = sines.len();
    let mut out: Vec<i16> = Vec::new();
    let mut i: usize = 0;
    while i < n
        invariant
            snap.bounded(),
            sines_bounded(sines@),
            channels >= 1,
            n == sines@.len(),
            i <= n,
            out@.len() == i * channels,
            forall|k: int|
                0 <= k < out@.len() ==> #[trigger] out@[k] == to_i16_spec(
                    rendered_sample(
                        *snap,
                        sines@[frame_of(k, channels as int)].0 as int,
                        sines@[frame_of(k, channels as int)].1 as int,
                    ),
                ),
        decreases n - i,
    {
        let pair = sines[i];
        let s = mix_sample(pair.0, pair.1, snap.osc_mix, snap.gain, snap.master_gain);
        let v = sample_to_i16(s);
        let mut c: usize = 0;
        while c < channels
            invariant
                i < n,
                n == sines@.len(),
                channels >= 1,
                c <= channels,
                out@.len() == i * channels + c,
                snap.bounded(),
                sines_bounded(sines@),
                v == to_i16_spec(
                    rendered_sample(
                        *snap,
                        sines@[i as int].0 as int,
                        sines@[i as int].1 as int,
                    ),
                ),
                forall|k: int|
                    0 <= k < out@.len() ==> #[trigger] out@[k] == to_i16_spec(
                        rendered_sample(
                            *snap,
                            sines@[frame_of(k, channels as int)].0 as int,
                            sines@[frame_of(k, channels as int)].1 as int,
                        ),
                    ),
            decreases channels - c,
        {
            proof {
                lemma_fundamental_div_mod_converse_div(
                    i as int * channels as int + c as int,
                    channels as int,
                    i as int,
                    c as int,
                );
            }
            out.push(v);
            c = c + 1;
        }
        proof {
            lemma_mul_is_distributive_add_other_way(channels as int, i as int, 1);
        }
        i = i + 1;
    }
    out
}

/// Like [`fill_frames_i16`], for the unsigned 16-bit sample format.
pub fn fill_frames_u16(sines: &Vec<(i64, i64)>, snap: &ParamSnapshot, channels: usize) -> (out:
    Vec<u16>)
    requires
        snap.bounded(),
        sines_bounded(sines@),
        channels >= 1,
    ensures
        out@.len() == sines@.len() * channels,
        forall|k: int|
            0 <= k < out@.len() ==> #[trigger] out@[k] == to_u16_spec(
                rendered_sample(
                    *snap,
                    sines@[frame_of(k, channels as int)].0 as int,
                    sines@[frame_of(k, channels as int)].1 as int,
                ),
            ),
{
    let n = sines.len();
    let mut out: Vec<u16> = Vec::new();
    let mut i: usize = 0;
    while i < n
        invariant
            snap.bounded(),
            sines_bounded(sines@),
            channels >= 1,
            n == sines@.len(),
            i <= n,
            out@.len() == i * channels,
            forall|k: int|
                0 <= k < out@.len() ==> #[trigger] out@[k] == to_u16_spec(
                    rendered_sample(
                        *snap,
                        sines@[frame_of(k, channels as int)].0 as int,
                        sines@[frame_of(k, channels as int)].1 as int,
                    ),
                ),
        decreases n - i,
    {
        let pair = sines[i];
        let s = mix_sample(pair.0, pair.1, snap.osc_mix, snap.gain, snap.master_gain);
        let v = sample_to_u16(s);
        let mut c: usize = 0;
        while c < channels
            invariant
                i < n,
                n == sines@.len(),
                channels >= 1,
                c <= channels,
                out@.len() == i * channels + c,
                snap.bounded(),
                sines_bounded(sines@),
                v == to_u16_spec(
                    rendered_sample(
                        *snap,
                        sines@[i as int].0 as int,
                        sines@[i as int].1 as int,
                    ),
                ),
                forall|k: int|
                    0 <= k < out@.len() ==> #[trigger] out@[k] == to_u16_spec(
                        rendered_sample(
                            *snap,
                            sines@[frame_of(k, channels as int)].0 as int,
                            sines@[frame_of(k, channels as int)].1 as int,
                        ),
                    ),
            decreases channels - c,
        {
            proof {
                lemma_fundamental_div_mod_converse_div(
                    i as int * channels as int + c as int,
                    channels as int,
                    i as int,
                    c as int,
                );
            }
            out.push(v);
            c = c + 1;
        }
        proof {
            lemma_mul_is_distributive_add_other_way(channels as int, i as int, 1);
        }
        i = i + 1;
    }
    out
}

/// Like [`fill_frames_i16`], for a floating-point device format: the
/// blended Q16.16 amplitude passes through unclamped, and the embedding
/// program only divides each value by one Q16.16 unit on its way into
/// the device buffer.
pub fn fill_frames_raw(sines: &Vec<(i64, i64)>, snap: &ParamSnapshot, channels: usize) -> (out:
    Vec<i64>)
    requires
        snap.bounded(),
        sines_bounded(sines@),
        channels >= 1,
    ensures
        out@.len() == sines@.len() * channels,
        forall|k: int|
            0 <= k < out@.len() ==> #[trigger] out@[k] == rendered_sample(
                *snap,
                sines@[frame_of(k, channels as int)].0 as int,
                sines@[frame_of(k, channels as int)].1 as int,
            ),
{
    let n = sines.len();
    let mut out: Vec<i64> = Vec::new();
    let mut i: usize = 0;
    while i < n
        invariant
            snap.bounded(),
            sines_bounded(sines@),
            channels >= 1,
            n == sines@.len(),
            i <= n,
            out@.len() == i * channels,
            forall|k: int|
                0 <= k < out@.len() ==> #[trigger] out@[k] == rendered_sample(
                    *snap,
                    sines@[frame_of(k, channels as int)].0 as int,
                    sines@[frame_of(k, channels as int)].1 as int,
                ),
        decreases n - i,
    {
        let pair = sines[i];
        let v = mix_sample(pair.0, pair.1, snap.osc_mix, snap.gain, snap.master_gain);
        let mut c: usize = 0;
        while c < channels
            invariant
                i < n,
                n == sines@.len(),
                channels >= 1,
                c <= channels,
                out@.len() == i * channels + c,
                snap.bounded(),
                sines_bounded(sines@),
                v == rendered_sample(
                    *snap,
                    sines@[i as int].0 as int,
                    sines@[i as int].1 as int,
                ),
                forall|k: int|
                    0 <= k < out@.len() ==> #[trigger] out@[k] == rendered_sample(
                        *snap,
                        sines@[frame_of(k, channels as int)].0 as int,
                        sines@[frame_of(k, channels as int)].1 as int,
                    ),
            decreases channels - c,
        {
            proof {
                lemma_fundamental_div_mod_converse_div(
                    i as int * channels as int + c as int,
                    channels as int,
                    i as int,
                    c as int,
                );
            }
            out.push(v);
            c = c + 1;
        }
        proof {
            lemma_mul_is_distributive_add_other_way(channels as int, i as int, 1);
        }
        i = i + 1;
    }
    out
}

} // verus!
