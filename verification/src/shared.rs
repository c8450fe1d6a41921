//! The parameter store as shared between the two execution contexts.
//!
//! The control surface and the real-time render context run concurrently
//! and never block each other on a scalar: every fixed-width parameter
//! lives in one atomic slot, written and read whole, so a reader sees
//! some previously written value and never a torn one. Because the slots
//! are Q16.16 integers, the value itself is stored — no bit-pattern
//! detour through a foreign representation is needed.
//!
//! The variable-length preset label is the one exception: it sits behind
//! a short-held mutual-exclusion lock, acceptable because the render
//! context never reads it.
//!
//! Verus assigns no value semantics to the atomic operations (another
//! context may write between any two observations), so nothing is stated
//! about what a load returns; everything downstream of a snapshot is
//! verified for every value a load could yield, in [`crate::render`].
//! The sequential model of this store, with full contracts, is
//! [`crate::store::ParamStore`].

use core::sync::atomic::{AtomicBool, AtomicI64, AtomicU32, Ordering};
use std::sync::Mutex;
use vstd::prelude::*;
use crate::presets::Preset;
use crate::store::{Param, DEFAULT_MASTER_GAIN, DEFAULT_FREQ_HZ};
use crate::render::ParamSnapshot;

verus! {

/// std's mutual-exclusion lock, declared opaquely so the label can sit
/// behind it.
#[verifier::external_type_specification]
#[verifier::external_body]
#[verifier::reject_recursive_types(T)]
pub struct ExMutex<T: ?Sized>(Mutex<T>);

/// Relies on `std::sync::Mutex::new`: builds the lock around the initial
/// label.
#[verifier::external_body]
fn label_cell_new(s: String) -> Mutex<String> {
    Mutex::new(s)
}

/// Relies on `std::sync::Mutex::lock`: takes the lock briefly and clones
/// the guarded label out. Another context may change the label at any
/// time, so nothing can be stated of the value; a poisoned lock still
/// yields its contents rather than failing.
#[verifier::external_body]
fn label_cell_read(m: &Mutex<String>) -> String {
    match m.lock() {
        Ok(g) => g.clone(),
        Err(e) => e.into_inner().clone(),
    }
}

/// Relies on `std::sync::Mutex::lock`: takes the lock briefly and
/// replaces the guarded label; a poisoned lock is still written through.
#[verifier::external_body]
fn label_cell_write(m: &Mutex<String>, s: String) {
    match m.lock() {
        Ok(mut g) => *g = s,
        Err(e) => *e.into_inner() = s,
    }
}

/// The process-wide synthesis state: one atomic slot per scalar
/// parameter, the lock-guarded preset label, and the auxiliary display
/// flag with its tick counter. One value of this type is created at
/// startup and shared by reference into both contexts.
pub struct SharedState {
    /// Human-readable name of the active preset, for the control surface
    /// only.
    preset_name: Mutex<String>,
    /// Oscillator cross-fade weight, Q16.16.
    osc_mix: AtomicI64,
    /// Detune amount, Q16.16.
    detune: AtomicI64,
    /// Per-voice gain, Q16.16.
    gain: AtomicI64,
    /// Master output gain, Q16.16.
    master_gain: AtomicI64,
    /// Output frequency, Q16.16 Hz.
    freq_hz: AtomicI64,
    /// Auxiliary display mode toggle.
    disco: AtomicBool,
    /// Tick counter the display mode advances.
    ad_tick: AtomicU32,
}

impl SharedState {
    /// A fresh shared state: the romantic preset applied, default master
    /// gain and demo frequency, display mode off.
    pub fn new() -> SharedState {
        let p = Preset::ryan_josh();
        SharedState {
            preset_name: label_cell_new(p.name),
            osc_mix: AtomicI64::new(p.osc_mix),
            detune: AtomicI64::new(p.detune),
            gain: AtomicI64::new(p.gain),
            master_gain: AtomicI64::new(DEFAULT_MASTER_GAIN),
            freq_hz: AtomicI64::new(DEFAULT_FREQ_HZ),
            disco: AtomicBool::new(false),
            ad_tick: AtomicU32::new(0),
        }
    }

    /// The atomic slot a parameter name denotes.
    fn slot(&self, p: Param) -> &AtomicI64 {
        match p {
            Param::OscMix => &self.osc_mix,
            Param::Detune => &self.detune,
            Param::VoiceGain => &self.gain,
            Param::MasterGain => &self.master_gain,
            Param::Frequency => &self.freq_hz,
        }
    }

    /// Stores one scalar whole, unconditionally and unclamped; never
    /// blocks the other context.
    pub fn set_param(&self, p: Param, v: i64) {
        self.slot(p).store(v, Ordering::SeqCst);
    }

    /// Reads one scalar whole; never blocks, never fails.
    pub fn get_param(&self, p: Param) -> i64 {
        self.slot(p).load(Ordering::SeqCst)
    }

    /// Applies a preset bundle: replaces the label and stores the
    /// bundle's three scalars, each write atomic on its own. The writes
    /// are deliberately not atomic as a group — a concurrent reader may
    /// briefly see a mix of old and new fields, the accepted price of
    /// never blocking the render context.
    pub fn apply_preset(&self, p: &Preset) {
        label_cell_write(&self.preset_name, p.name.clone());
        self.osc_mix.store(p.osc_mix, Ordering::SeqCst);
        self.detune.store(p.detune, Ordering::SeqCst);
        self.gain.store(p.gain, Ordering::SeqCst);
    }

    /// The active preset's display name.
    pub fn get_label(&self) -> String {
        label_cell_read(&self.preset_name)
    }

    /// Sets the auxiliary display mode flag.
    pub fn set_disco(&self, on: bool) {
        self.disco.store(on, Ordering::SeqCst);
    }

    /// Reads the auxiliary display mode flag.
    pub fn get_disco(&self) -> bool {
        self.disco.load(Ordering::SeqCst)
    }

    /// Advances the display-mode tick counter by one, wrapping.
    pub fn tick(&self) {
        let _ = self.ad_tick.fetch_add(1, Ordering::SeqCst);
    }

    /// Reads the display-mode tick counter.
    pub fn get_tick(&self) -> u32 {
        self.ad_tick.load(Ordering::SeqCst)
    }

    /// Reads all five scalars, once each, as the render context does at
    /// the start of a buffer. The result is raw: the render path clamps
    /// it through [`ParamSnapshot::sanitized`] before mixing.
    pub fn snapshot(&self) -> ParamSnapshot {
        ParamSnapshot {
            osc_mix: self.osc_mix.load(Ordering::SeqCst),
            detune: self.detune.load(Ordering::SeqCst),
            gain: self.gain.load(Ordering::SeqCst),
            master_gain: self.master_gain.load(Ordering::SeqCst),
            freq_hz: self.freq_hz.load(Ordering::SeqCst),
        }
    }
}

} // verus!
