//! The waveforms that a test-signal oscillator can produce. The oscillator
//! itself does floating-point sample synthesis and lives with the signal
//! path outside this crate.

use vstd::prelude::*;

verus! {

/// The shape of a generated test signal.
#[derive(Debug, Clone, Copy, PartialEq, Eq, Structural)]
pub enum Waveform {
    Sine,
    Saw,
    Square,
    Triangle,
}

} // verus!
