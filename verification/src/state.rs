//! Processing modes and the per-frame musical settings.

use vstd::prelude::*;

verus! {

/// Processing modes for vocal effects.
#[derive(Debug, Clone, Copy, PartialEq, Eq, Structural)]
pub enum ProcessingMode {
    /// Pitch correction mode.
    Autotune,
    /// Vocoder mode: applies vocal formants to a carrier signal.
    Vocode,
    /// Dry mode: pitch shifting with formant preservation but no correction.
    Dry,
}

/// Musical settings for vocal effects processing.
///
/// Owned by the caller and passed per frame; the engine keeps no copy.
#[derive(Debug, Clone, Copy, PartialEq, Eq, Structural)]
pub struct MusicalSettings {
    /// Musical key: 0-11 are the major keys, 12-23 the minor keys.
    pub key: i32,
    /// Specific note: 0 is auto mode, 1-9 a note of the scale (8 and 9 wrap
    /// to the first two degrees of the next octave).
    pub note: i32,
    /// Octave setting.
    pub octave: i32,
    /// Formant shift mode: 0 none, 1 lower, 2 higher.
    pub formant: i32,
    /// Processing mode for vocal effects.
    pub mode: ProcessingMode,
}

impl Default for MusicalSettings {
    /// C major, auto mode, middle octave, no formant shift, pitch correction.
    fn default() -> (r: Self)
        ensures
            r == (MusicalSettings {
                key: 0i32,
                note: 0i32,
                octave: 2i32,
                formant: 0i32,
                mode: ProcessingMode::Autotune,
            }),
    {
        MusicalSettings { key: 0, note: 0, octave: 2, formant: 0, mode: ProcessingMode::Autotune }
    }
}

} // verus!
