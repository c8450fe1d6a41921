//! The parameter store, sequentially.
//!
//! This is the synthesizer's whole control state as one plain value: the
//! five scalar parameters, the preset label, the auxiliary display flag
//! and its tick counter. Every operation's effect on every field is
//! stated exactly; in particular, applying a preset writes the bundle's
//! three scalars and the label and nothing else.
//!
//! The process-wide edition shared between the control surface and the
//! render context lives in [`crate::shared`]; this sequential form is
//! what a single context owns and reasons about.

use vstd::prelude::*;
use crate::presets::Preset;

verus! {

/// Q16.16 default master gain (0.8).
pub const DEFAULT_MASTER_GAIN: i64 = 52429;

/// Q16.16 default demo-tone frequency (220 Hz).
pub const DEFAULT_FREQ_HZ: i64 = 14417920;

/// The five scalar parameters, exhaustively enumerated: a parameter name
/// is a variant, so an invalid name cannot be formed.
#[derive(Clone, Copy, PartialEq, Eq, Structural)]
pub enum Param {
    /// Oscillator cross-fade weight.
    OscMix,
    /// Detune amount in the ad-hoc demo unit.
    Detune,
    /// Per-voice gain.
    VoiceGain,
    /// Master output gain.
    MasterGain,
    /// Output frequency in Q16.16 Hz.
    Frequency,
}

/// The sequential parameter store.
pub struct ParamStore {
    /// Display name of the most recently applied preset.
    pub label: String,
    /// Oscillator cross-fade weight.
    pub osc_mix: i64,
    /// Detune amount.
    pub detune: i64,
    /// Per-voice gain.
    pub gain: i64,
    /// Master output gain.
    pub master_gain: i64,
    /// Output frequency, Q16.16 Hz.
    pub freq_hz: i64,
    /// Auxiliary display mode toggle.
    pub disco: bool,
    /// Tick counter the display mode advances.
    pub ad_tick: u32,
}

impl ParamStore {
    /// The scalar a parameter name denotes.
    pub open spec fn param_spec(&self, p: Param) -> i64 {
        match p {
            Param::OscMix => self.osc_mix,
            Param::Detune => self.detune,
            Param::VoiceGain => self.gain,
            Param::MasterGain => self.master_gain,
            Param::Frequency => self.freq_hz,
        }
    }

    /// A fresh store: the romantic preset applied, default master gain
    /// and demo frequency, display mode off.
    pub fn new() -> (s: ParamStore)
        ensures
            s.label@ == "Ryan & Josh Allen (romantic)"@,
            s.osc_mix == 16384,
            s.detune == 131072,
            s.gain == 29491,
            s.master_gain == DEFAULT_MASTER_GAIN,
            s.freq_hz == DEFAULT_FREQ_HZ,
            s.disco == false,
            s.ad_tick == 0,
    {
        let p = Preset::ryan_josh();
        ParamStore {
            label: p.name,
            osc_mix: p.osc_mix,
            detune: p.detune,
            gain: p.gain,
            master_gain: DEFAULT_MASTER_GAIN,
            freq_hz: DEFAULT_FREQ_HZ,
            disco: false,
            ad_tick: 0,
        }
    }

    /// Stores one scalar under its name, unconditionally and unclamped;
    /// every other field keeps its value.
    pub fn set_param(&mut self, p: Param, v: i64)
        ensures
            forall|q: Param|
                #[trigger] final(self).param_spec(q) == if q == p {
                    v
                } else {
                    old(self).param_spec(q)
                },
            final(self).label@ == old(self).label@,
            final(self).disco == old(self).disco,
            final(self).ad_tick == old(self).ad_tick,
    {
        match p {
            Param::OscMix => self.osc_mix = v,
            Param::Detune => self.detune = v,
            Param::VoiceGain => self.gain = v,
            Param::MasterGain => self.master_gain = v,
            Param::Frequency => self.freq_hz = v,
        }
    }

    /// Reads the scalar a name denotes; never fails.
    pub fn get_param(&self, p: Param) -> (v: i64)
        ensures
            v == self.param_spec(p),
    {
        match p {
            Param::OscMix => self.osc_mix,
            Param::Detune => self.detune,
            Param::VoiceGain => self.gain,
            Param::MasterGain => self.master_gain,
            Param::Frequency => self.freq_hz,
        }
    }

    /// Applies a preset bundle: writes exactly the bundle's three scalars
    /// and the display label; the master gain, the frequency, the display
    /// mode and its tick are untouched.
    pub fn apply_preset(&mut self, p: &Preset)
        ensures
            final(self).osc_mix == p.osc_mix,
            final(self).detune == p.detune,
            final(self).gain == p.gain,
            final(self).label@ == p.name@,
            final(self).master_gain == old(self).master_gain,
            final(self).freq_hz == old(self).freq_hz,
            final(self).disco == old(self).disco,
            final(self).ad_tick == old(self).ad_tick,
    {
        self.label = p.name.clone();
        self.osc_mix = p.osc_mix;
        self.detune = p.detune;
        self.gain = p.gain;
    }

    /// The current preset's display name.
    pub fn get_label(&self) -> (r: String)
        ensures
            r@ == self.label@,
    {
        self.label.clone()
    }

    /// Sets the auxiliary display mode flag; scalars are untouched.
    pub fn set_disco(&mut self, on: bool)
        ensures
            final(self).disco == on,
            final(self).label@ == old(self).label@,
            final(self).ad_tick == old(self).ad_tick,
            forall|q: Param|
                #[trigger] final(self).param_spec(q) == old(self).param_spec(q),
    {
        self.disco = on;
    }

    /// Reads the auxiliary display mode flag.
    pub fn get_disco(&self) -> (r: bool)
        ensures
            r == self.disco,
    {
        self.disco
    }

    /// Advances the display-mode tick counter by one, wrapping.
    pub fn tick(&mut self)
        ensures
            final(self).ad_tick == (old(self).ad_tick + 1) % 0x100000000,
            final(self).disco == old(self).disco,
            final(self).label@ == old(self).label@,
            forall|q: Param|
                #[trigger] final(self).param_spec(q) == old(self).param_spec(q),
    {
        self.ad_tick = self.ad_tick.wrapping_add(1);
    }
}

} // verus!
