//! The built-in preset catalog: pure data, two named parameter bundles.
//!
//! All scalars are Q16.16 renderings of the intended real values, rounded
//! to the nearest representable step.

use vstd::prelude::*;

verus! {

/// A named, immutable bundle of the three timbre parameters a preset
/// sets: oscillator mix, detune, and voice gain.
pub struct Preset {
    /// Human-readable display name.
    pub name: String,
    /// Oscillator cross-fade weight, nominally within one unit.
    pub osc_mix: i64,
    /// Detune amount, in the ad-hoc demo unit.
    pub detune: i64,
    /// Voice gain, nominally within two units.
    pub gain: i64,
}

impl Preset {
    /// The "romantic" bundle: moderate mix 0.25, detune 2.0, gain 0.45.
    pub fn ryan_josh() -> (p: Preset)
        ensures
            p.name@ == "Ryan & Josh Allen (romantic)"@,
            p.osc_mix == 16384,
            p.detune == 131072,
            p.gain == 29491,
    {
        Preset {
            name: "Ryan & Josh Allen (romantic)".to_owned(),
            osc_mix: 16384,
            detune: 131072,
            gain: 29491,
        }
    }

    /// The "fast/aggressive" bundle: mix 0.85, detune 8.0, gain 0.75.
    pub fn laura_les() -> (p: Preset)
        ensures
            p.name@ == "Laura Les (fast hyperpopish)"@,
            p.osc_mix == 55706,
            p.detune == 524288,
            p.gain == 49152,
    {
        Preset {
            name: "Laura Les (fast hyperpopish)".to_owned(),
            osc_mix: 55706,
            detune: 524288,
            gain: 49152,
        }
    }
}

} // verus!
