//! The audio path's error taxonomy.
//!
//! Parameter reads and writes never fail, so the only failures are the
//! audio path's own: no device, a sample format without a conversion
//! rule, or a per-buffer driver error. The first two are fatal to the
//! audio path and surface at the process entry point; the last is logged
//! and playback continues on the next buffer.

use vstd::prelude::*;

verus! {

/// What can go wrong on the audio path.
#[derive(Clone, Copy, Debug, PartialEq, Eq, Structural)]
pub enum SynthError {
    /// No usable output device was found. Fatal to the audio path; the
    /// process may continue without sound.
    DeviceUnavailable,
    /// The negotiated sample format has no conversion rule. Fatal to the
    /// audio path.
    UnsupportedFormat,
    /// The driver reported an I/O error during playback. Non-fatal:
    /// logged, and playback continues on the next buffer.
    RenderCallbackError,
}

impl SynthError {
    /// Whether the error ends the audio path or only costs one buffer.
    pub fn is_fatal(&self) -> (r: bool)
        ensures
            r == (*self != SynthError::RenderCallbackError),
    {
        match self {
            SynthError::RenderCallbackError => false,
            _ => true,
        }
    }

    /// A human-readable description, for the report at the process entry
    /// point or the log sink.
    pub fn message(&self) -> (r: String)
        ensures
            *self == SynthError::DeviceUnavailable ==> r@ == "no usable output device"@,
            *self == SynthError::UnsupportedFormat ==> r@ == "unsupported sample format"@,
            *self == SynthError::RenderCallbackError ==> r@ == "output stream error"@,
    {
        match self {
            SynthError::DeviceUnavailable => "no usable output device".to_owned(),
            SynthError::UnsupportedFormat => "unsupported sample format".to_owned(),
            SynthError::RenderCallbackError => "output stream error".to_owned(),
        }
    }
}

} // verus!
