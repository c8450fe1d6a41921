//! A monophonic tone synthesizer core: a lock-free parameter store shared
//! between a control surface and a real-time render context, a pure
//! two-oscillator synthesis function, an exact phase accumulator, and the
//! numeric conversions that turn normalized amplitudes into device sample
//! formats.
//!
//! All scalar parameters and amplitudes are Q16.16 fixed-point integers
//! (see [`fixed`]), so every arithmetic step of the render path is exact
//! and verified. The sine evaluations themselves are supplied by the
//! embedding program as fixed-point amplitudes.

pub mod fixed;
pub mod osc;
pub mod phase;
pub mod convert;
pub mod presets;
pub mod store;
pub mod render;
pub mod shared;
pub mod errors;
