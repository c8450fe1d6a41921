// The synthesis engine: mixing, detune, phase accumulation, format
// conversion, and buffer rendering, all on concrete values.

use tone_synth::convert::{sample_to_i16, sample_to_u16};
use tone_synth::fixed::{PARAM_LIMIT, SCALE};
use tone_synth::osc::{detuned_phase, mix_sample};
use tone_synth::phase::PhaseAcc;
use tone_synth::render::{
    fill_frames_i16, fill_frames_raw, fill_frames_u16, plan_phases, ParamSnapshot,
};

fn unit_snapshot(osc_mix: i64, freq_hz: i64) -> ParamSnapshot {
    ParamSnapshot {
        osc_mix,
        detune: 0,
        gain: SCALE,
        master_gain: SCALE,
        freq_hz,
    }
}

#[test]
fn mix_at_zero_is_base_sine_scaled() {
    // osc_mix = 0: the detuned amplitude must not matter at all.
    assert_eq!(mix_sample(40000, -12345, 0, SCALE, SCALE), 40000);
    assert_eq!(mix_sample(40000, 131072, 0, SCALE, SCALE), 40000);
    // gain 0.5, master 1.0 halves the base sine.
    assert_eq!(mix_sample(40000, -12345, 0, 32768, SCALE), 20000);
    // gain 0.75, master 0.5.
    assert_eq!(mix_sample(-32000, 7, 0, 49152, 32768), -12000);
}

#[test]
fn mix_at_one_is_detuned_sine_scaled() {
    // osc_mix = 1: the base amplitude must not matter at all.
    assert_eq!(mix_sample(123, -31415, SCALE, SCALE, SCALE), -31415);
    assert_eq!(mix_sample(-100000, -31415, SCALE, SCALE, SCALE), -31415);
    assert_eq!(mix_sample(0, 50000, SCALE, 32768, SCALE), 25000);
}

#[test]
fn crossfade_is_monotone_between_pure_values() {
    let (a, b) = (-20000i64, 30000i64);
    let (g, mg) = (49152i64, 52429i64);
    let lo = mix_sample(a, b, 0, g, mg);
    let hi = mix_sample(a, b, SCALE, g, mg);
    assert!(lo < hi);
    let mut prev = lo;
    let mut m = 0i64;
    while m <= SCALE {
        let s = mix_sample(a, b, m, g, mg);
        assert!(s >= prev, "cross-fade decreased at mix={}", m);
        assert!(lo <= s && s <= hi, "cross-fade left the endpoint interval");
        prev = s;
        m += 4096;
    }
    assert_eq!(prev, hi);
}

#[test]
fn crossfade_monotone_decreasing_when_base_is_louder() {
    let (a, b) = (30000i64, -20000i64);
    let mut prev = mix_sample(a, b, 0, SCALE, SCALE);
    let mut m = 4096i64;
    while m <= SCALE {
        let s = mix_sample(a, b, m, SCALE, SCALE);
        assert!(s <= prev);
        prev = s;
        m += 4096;
    }
}

#[test]
fn detuned_phase_offsets_by_a_thousandth_per_unit() {
    // One whole detune unit (65536 in Q16.16) shifts by 1/1000 cycle:
    // 65536 * 65536 / 1000 = 4294967 phase units (truncated).
    assert_eq!(detuned_phase(0, SCALE), 4294967);
    // A detune of 1000/65536 units shifts by exactly 65536 phase units.
    assert_eq!(detuned_phase(5, 1000), 65541);
    // Negative detune wraps backward around the cycle.
    assert_eq!(detuned_phase(5, -1000), 4294901765);
    // Zero detune leaves the phase alone.
    assert_eq!(detuned_phase(123456789, 0), 123456789);
}

#[test]
fn phase_round_trip_integer_ratio() {
    // 240 Hz at 48000 Hz: one period is exactly 200 samples.
    let mut acc = PhaseAcc::new(48000);
    assert_eq!(acc.denom, 48000 * SCALE as u64);
    let step = 240 * SCALE as u64;
    for _ in 0..200 {
        acc.advance(step);
    }
    assert_eq!(acc.numer, 0, "phase did not return to its start");
    // And again from a nonzero starting phase.
    acc.advance(12345);
    let start = acc.numer;
    for _ in 0..200 {
        acc.advance(step);
    }
    assert_eq!(acc.numer, start);
}

#[test]
fn phase_q32_quarters() {
    // 12000 Hz at 48000 Hz advances a quarter cycle per sample.
    let mut acc = PhaseAcc::new(48000);
    let snap = unit_snapshot(0, 12000 * SCALE);
    let phases = plan_phases(&mut acc, &snap, 5);
    let q: Vec<u32> = phases.iter().map(|p| p.0).collect();
    assert_eq!(q, vec![0, 1073741824, 2147483648, 3221225472, 0]);
    // Detune zero: the detuned phase equals the base phase.
    for p in &phases {
        assert_eq!(p.0, p.1);
    }
    // Five quarter-cycle steps leave the accumulator a quarter past the
    // wrap: 5 * 12000 * 65536 mod 48000 * 65536.
    assert_eq!(acc.numer, 786432000);
}

#[test]
fn signed_conversion_extremes_and_clamp() {
    assert_eq!(sample_to_i16(SCALE), 32767);
    assert_eq!(sample_to_i16(-SCALE), -32767);
    // Out-of-range amplitudes clamp before scaling.
    assert_eq!(sample_to_i16(2 * SCALE), 32767);
    assert_eq!(sample_to_i16(-999999), -32767);
    assert_eq!(sample_to_i16(0), 0);
    // Truncation is toward zero on both sides.
    assert_eq!(sample_to_i16(32768), 16383);
    assert_eq!(sample_to_i16(-32768), -16383);
}

#[test]
fn unsigned_conversion_landmarks() {
    // Silence lands one below the exact midpoint, within the ±1 rounding
    // tolerance of mid-scale.
    assert_eq!(sample_to_u16(0), 32767);
    assert_eq!(sample_to_u16(-SCALE), 0);
    assert_eq!(sample_to_u16(SCALE), 65535);
    // Out-of-range amplitudes clamp before remapping.
    assert_eq!(sample_to_u16(200000), 65535);
    assert_eq!(sample_to_u16(-70000), 0);
    assert_eq!(sample_to_u16(32768), 49151);
}

#[test]
fn fill_i16_duplicates_across_channels() {
    let sines = vec![(SCALE, SCALE), (0, 0), (-SCALE, -SCALE)];
    let snap = unit_snapshot(0, 220 * SCALE);
    let out = fill_frames_i16(&sines, &snap, 2);
    assert_eq!(out, vec![32767, 32767, 0, 0, -32767, -32767]);
}

#[test]
fn fill_u16_duplicates_across_channels() {
    let sines = vec![(SCALE, SCALE), (-SCALE, -SCALE)];
    let snap = unit_snapshot(0, 220 * SCALE);
    let out = fill_frames_u16(&sines, &snap, 3);
    assert_eq!(out, vec![65535, 65535, 65535, 0, 0, 0]);
}

#[test]
fn fill_raw_passes_overrange_amplitudes_through() {
    // gain 2.0 pushes a full-scale sine to two units; the raw (float
    // path) buffer must not clamp it.
    let snap = ParamSnapshot {
        osc_mix: 0,
        detune: 0,
        gain: 2 * SCALE,
        master_gain: SCALE,
        freq_hz: 220 * SCALE,
    };
    let sines = vec![(SCALE, 0), (-SCALE, 0)];
    let out = fill_frames_raw(&sines, &snap, 1);
    assert_eq!(out, vec![2 * SCALE, -2 * SCALE]);
}

#[test]
fn fill_uses_snapshot_mix() {
    // A half-and-half mix of two distinct sines.
    let sines = vec![(20000, 40000)];
    let snap = unit_snapshot(32768, 220 * SCALE);
    let out = fill_frames_raw(&sines, &snap, 1);
    assert_eq!(out, vec![30000]);
}

#[test]
fn sanitized_clamps_only_out_of_range_values() {
    let wild = ParamSnapshot {
        osc_mix: i64::MAX,
        detune: i64::MIN,
        gain: 49152,
        master_gain: -3,
        freq_hz: -5,
    };
    let s = wild.sanitized();
    assert_eq!(s.osc_mix, PARAM_LIMIT);
    assert_eq!(s.detune, -PARAM_LIMIT);
    assert_eq!(s.gain, 49152);
    assert_eq!(s.master_gain, -3);
    assert_eq!(s.freq_hz, 0);

    let tame = ParamSnapshot {
        osc_mix: 16384,
        detune: 131072,
        gain: 29491,
        master_gain: 52429,
        freq_hz: 220 * SCALE,
    };
    let t = tame.sanitized();
    assert_eq!(t.osc_mix, 16384);
    assert_eq!(t.detune, 131072);
    assert_eq!(t.gain, 29491);
    assert_eq!(t.master_gain, 52429);
    assert_eq!(t.freq_hz, 220 * SCALE);
}
