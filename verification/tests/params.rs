// The parameter stores (sequential and shared), the preset catalog, and
// the error taxonomy.

use tone_synth::errors::SynthError;
use tone_synth::presets::Preset;
use tone_synth::shared::SharedState;
use tone_synth::store::{Param, ParamStore, DEFAULT_FREQ_HZ, DEFAULT_MASTER_GAIN};

#[test]
fn preset_catalog_values() {
    let r = Preset::ryan_josh();
    assert_eq!(r.name, "Ryan & Josh Allen (romantic)");
    assert_eq!(r.osc_mix, 16384); // 0.25
    assert_eq!(r.detune, 131072); // 2.0
    assert_eq!(r.gain, 29491); // 0.45

    let l = Preset::laura_les();
    assert_eq!(l.name, "Laura Les (fast hyperpopish)");
    assert_eq!(l.osc_mix, 55706); // 0.85
    assert_eq!(l.detune, 524288); // 8.0
    assert_eq!(l.gain, 49152); // 0.75
}

#[test]
fn store_starts_with_romantic_preset_and_defaults() {
    let s = ParamStore::new();
    assert_eq!(s.get_label(), "Ryan & Josh Allen (romantic)");
    assert_eq!(s.get_param(Param::OscMix), 16384);
    assert_eq!(s.get_param(Param::Detune), 131072);
    assert_eq!(s.get_param(Param::VoiceGain), 29491);
    assert_eq!(s.get_param(Param::MasterGain), DEFAULT_MASTER_GAIN);
    assert_eq!(s.get_param(Param::Frequency), DEFAULT_FREQ_HZ);
    assert!(!s.get_disco());
    assert_eq!(s.ad_tick, 0);
}

#[test]
fn store_set_touches_exactly_one_parameter() {
    let all = [
        Param::OscMix,
        Param::Detune,
        Param::VoiceGain,
        Param::MasterGain,
        Param::Frequency,
    ];
    for &p in &all {
        let mut s = ParamStore::new();
        let before: Vec<i64> = all.iter().map(|&q| s.get_param(q)).collect();
        // Out-of-range values are accepted and stored as-is.
        s.set_param(p, -987654321);
        for (&q, &b) in all.iter().zip(before.iter()) {
            if q == p {
                assert_eq!(s.get_param(q), -987654321);
            } else {
                assert_eq!(s.get_param(q), b);
            }
        }
        assert_eq!(s.get_label(), "Ryan & Josh Allen (romantic)");
    }
}

#[test]
fn store_apply_preset_sets_three_fields_and_label() {
    let mut s = ParamStore::new();
    s.set_param(Param::MasterGain, 11111);
    s.set_param(Param::Frequency, 22222);
    s.apply_preset(&Preset::laura_les());
    assert_eq!(s.get_label(), "Laura Les (fast hyperpopish)");
    assert_eq!(s.get_param(Param::OscMix), 55706);
    assert_eq!(s.get_param(Param::Detune), 524288);
    assert_eq!(s.get_param(Param::VoiceGain), 49152);
    // The master gain and the frequency are not part of a preset.
    assert_eq!(s.get_param(Param::MasterGain), 11111);
    assert_eq!(s.get_param(Param::Frequency), 22222);
}

#[test]
fn store_tick_wraps() {
    let mut s = ParamStore::new();
    s.tick();
    s.tick();
    assert_eq!(s.ad_tick, 2);
    s.ad_tick = u32::MAX;
    s.tick();
    assert_eq!(s.ad_tick, 0);
}

#[test]
fn shared_state_starts_like_the_sequential_store() {
    let s = SharedState::new();
    assert_eq!(s.get_label(), "Ryan & Josh Allen (romantic)");
    assert_eq!(s.get_param(Param::OscMix), 16384);
    assert_eq!(s.get_param(Param::Detune), 131072);
    assert_eq!(s.get_param(Param::VoiceGain), 29491);
    assert_eq!(s.get_param(Param::MasterGain), DEFAULT_MASTER_GAIN);
    assert_eq!(s.get_param(Param::Frequency), DEFAULT_FREQ_HZ);
    assert!(!s.get_disco());
    assert_eq!(s.get_tick(), 0);
}

#[test]
fn shared_state_apply_preset_and_label_round_trip() {
    let s = SharedState::new();
    s.apply_preset(&Preset::laura_les());
    assert_eq!(s.get_label(), "Laura Les (fast hyperpopish)");
    assert_eq!(s.get_param(Param::OscMix), 55706);
    assert_eq!(s.get_param(Param::Detune), 524288);
    assert_eq!(s.get_param(Param::VoiceGain), 49152);
    assert_eq!(s.get_param(Param::MasterGain), DEFAULT_MASTER_GAIN);
    s.apply_preset(&Preset::ryan_josh());
    assert_eq!(s.get_label(), "Ryan & Josh Allen (romantic)");
}

#[test]
fn shared_state_snapshot_reads_all_five() {
    let s = SharedState::new();
    s.set_param(Param::OscMix, 1);
    s.set_param(Param::Detune, -2);
    s.set_param(Param::VoiceGain, 3);
    s.set_param(Param::MasterGain, 4);
    s.set_param(Param::Frequency, 5);
    let snap = s.snapshot();
    assert_eq!(snap.osc_mix, 1);
    assert_eq!(snap.detune, -2);
    assert_eq!(snap.gain, 3);
    assert_eq!(snap.master_gain, 4);
    assert_eq!(snap.freq_hz, 5);
}

#[test]
fn shared_state_reads_see_only_written_values() {
    // A writer streaming values into the frequency slot interleaved with
    // a polling reader: every read observes exactly a written value,
    // whole, never a torn one.
    let s = SharedState::new();
    for i in 0..10_000i64 {
        let v = i * 1_000_003 - 5_000_000;
        s.set_param(Param::Frequency, v);
        assert_eq!(s.get_param(Param::Frequency), v);
    }
}

#[test]
fn shared_state_disco_and_tick() {
    let s = SharedState::new();
    s.set_disco(true);
    assert!(s.get_disco());
    s.tick();
    s.tick();
    s.tick();
    assert_eq!(s.get_tick(), 3);
    s.set_disco(false);
    assert!(!s.get_disco());
}

#[test]
fn error_messages_and_severity() {
    assert_eq!(SynthError::DeviceUnavailable.message(), "no usable output device");
    assert_eq!(SynthError::UnsupportedFormat.message(), "unsupported sample format");
    assert_eq!(SynthError::RenderCallbackError.message(), "output stream error");
    assert!(SynthError::DeviceUnavailable.is_fatal());
    assert!(SynthError::UnsupportedFormat.is_fatal());
    assert!(!SynthError::RenderCallbackError.is_fatal());
}
