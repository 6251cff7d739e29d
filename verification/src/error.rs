//! Error types for the vocal effects library.

use vstd::prelude::*;

verus! {

/// Errors that can occur during vocal effects processing.
#[derive(Debug, Clone, Copy, PartialEq, Eq, Structural)]
pub enum VocalEffectsError {
    /// Input/output buffer size doesn't match the expected size.
    BufferSizeMismatch,
    /// FFT size is not supported.
    UnsupportedFftSize,
    /// Configuration parameters are invalid.
    InvalidConfiguration,
    /// Processing failed due to invalid input.
    ProcessingFailed,
}

impl VocalEffectsError {
    /// A short human-readable description of the error.
    pub fn message(&self) -> (r: &'static str)
        ensures
            *self is BufferSizeMismatch ==> r@ == "Input/output buffer size mismatch"@,
            *self is UnsupportedFftSize ==> r@ == "Unsupported FFT size"@,
            *self is InvalidConfiguration ==> r@ == "Invalid vocal effects configuration"@,
            *self is ProcessingFailed ==> r@ == "Vocal effects processing failed"@,
    {
        match self {
            VocalEffectsError::BufferSizeMismatch => "Input/output buffer size mismatch",
            VocalEffectsError::UnsupportedFftSize => "Unsupported FFT size",
            VocalEffectsError::InvalidConfiguration => "Invalid vocal effects configuration",
            VocalEffectsError::ProcessingFailed => "Vocal effects processing failed",
        }
    }
}

} // verus!
