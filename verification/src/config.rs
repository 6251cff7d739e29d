//! Configuration types for the vocal effects library.
//!
//! All fields are plain integers so validation is exact: sample rates are in
//! hertz, frequencies in millihertz, hop ratios in 1/65536 units (16384 is a
//! quarter-frame hop) and smoothing strengths in thousandths.

use vstd::prelude::*;
use vstd::arithmetic::power2::is_pow2;
use crate::error::VocalEffectsError;

verus! {

/// Configuration for the vocal effects processor.
#[derive(Debug, Clone, Copy, PartialEq, Eq, Structural)]
pub struct VocalEffectsConfig {
    /// FFT size (must be a power of 2, between 512 and 4096).
    pub fft_size: usize,
    /// Hop size in samples for overlap-add processing.
    pub hop_size: usize,
    /// Sample rate in hertz.
    pub sample_rate: i32,
    /// Hop ratio in 1/65536 units of the FFT size (1 to 32768, that is
    /// any positive fraction up to one half of a frame).
    pub hop_ratio: u32,
    /// Speed of pitch correction transition, in thousandths (0 to 1000).
    pub transition_speed: u32,
    /// Strength of pitch correction, in thousandths (closer to 1000 is
    /// stronger).
    pub pitch_correction_strength: u32,
    /// Minimum frequency to process, in millihertz.
    pub min_frequency: u64,
    /// Maximum frequency to process, in millihertz.
    pub max_frequency: u64,
}

/// The conditions under which the vocal effects processor accepts a
/// configuration: a power-of-two frame of 512 to 4096 samples, a positive
/// sample rate, and a hop ratio in (0, 1/2] of the frame.
pub open spec fn spec_valid_effects_config(fft_size: int, sample_rate: int, hop_ratio: int) -> bool {
    &&& is_pow2(fft_size)
    &&& 512 <= fft_size <= 4096
    &&& sample_rate > 0
    &&& 0 < hop_ratio <= 32768
}

impl Default for VocalEffectsConfig {
    /// A 1024-sample frame at 48 kHz with a quarter-frame hop, gentle
    /// transition, near-full correction strength, and a 50 Hz to 4 kHz
    /// processing window.
    fn default() -> (r: Self)
        ensures
            r == VocalEffectsConfig::spec_default(),
    {
        VocalEffectsConfig {
            fft_size: 1024,
            hop_size: 256,
            sample_rate: 48000,
            hop_ratio: 16384,
            transition_speed: 100,
            pitch_correction_strength: 999,
            min_frequency: 50_000,
            max_frequency: 4_000_000,
        }
    }
}

impl VocalEffectsConfig {
    /// The value that `Default` produces.
    pub open spec fn spec_default() -> VocalEffectsConfig {
        VocalEffectsConfig {
            fft_size: 1024usize,
            hop_size: 256usize,
            sample_rate: 48000i32,
            hop_ratio: 16384u32,
            transition_speed: 100u32,
            pitch_correction_strength: 999u32,
            min_frequency: 50_000u64,
            max_frequency: 4_000_000u64,
        }
    }

    /// Create a new configuration with validation; the remaining fields take
    /// their default values and the hop size is derived from the ratio.
    pub fn new(fft_size: usize, sample_rate: i32, hop_ratio: u32) -> (r: Result<
        Self,
        VocalEffectsError,
    >)
        ensures
            r is Ok <==> spec_valid_effects_config(
                fft_size as int,
                sample_rate as int,
                hop_ratio as int,
            ),
            r is Err ==> r == Err::<Self, VocalEffectsError>(
                VocalEffectsError::InvalidConfiguration,
            ),
            r is Ok ==> r->Ok_0 == (VocalEffectsConfig {
                fft_size,
                hop_size: (fft_size * hop_ratio as int / 65536) as usize,
                sample_rate,
                hop_ratio,
                ..VocalEffectsConfig::spec_default()
            }),
    {
        if !crate::fft_config::is_power_of_two(fft_size) {
            return Err(VocalEffectsError::InvalidConfiguration);
        }
        if !(512 <= fft_size && fft_size <= 4096) {
            return Err(VocalEffectsError::InvalidConfiguration);
        }
        if sample_rate <= 0 {
            return Err(VocalEffectsError::InvalidConfiguration);
        }
        if hop_ratio == 0 || hop_ratio > 32768 {
            return Err(VocalEffectsError::InvalidConfiguration);
        }
        assert(fft_size * (hop_ratio as usize) <= 4096 * 32768) by (nonlinear_arith)
            requires
                fft_size <= 4096,
                hop_ratio <= 32768,
        ;
        let hop_size: usize = (fft_size * (hop_ratio as usize)) / 65536;
        Ok(
            VocalEffectsConfig {
                fft_size,
                hop_size,
                sample_rate,
                hop_ratio,
                ..Default::default()
            },
        )
    }

    /// Update the hop ratio and recalculate the hop size.
    pub fn set_hop_ratio(&mut self, hop_ratio: u32) -> (r: Result<(), VocalEffectsError>)
        requires
            old(self).fft_size * 32768 <= usize::MAX,
        ensures
            r is Ok <==> 0 < hop_ratio <= 32768,
            r is Err ==> r == Err::<(), VocalEffectsError>(VocalEffectsError::InvalidConfiguration)
                && *final(self) == *old(self),
            r is Ok ==> *final(self) == (VocalEffectsConfig {
                hop_ratio,
                hop_size: (old(self).fft_size * hop_ratio as int / 65536) as usize,
                ..*old(self)
            }),
    {
        if hop_ratio == 0 || hop_ratio > 32768 {
            return Err(VocalEffectsError::InvalidConfiguration);
        }
        self.hop_ratio = hop_ratio;
        assert(self.fft_size * (hop_ratio as usize) <= self.fft_size * 32768) by (nonlinear_arith)
            requires
                hop_ratio <= 32768,
        ;
        self.hop_size = (self.fft_size * (hop_ratio as usize)) / 65536;
        Ok(())
    }

    /// Get the bin width in millihertz.
    pub fn bin_width(&self) -> (r: u64)
        requires
            self.fft_size >= 1,
            self.sample_rate >= 0,
        ensures
            r == self.sample_rate * 1000 / self.fft_size as int,
    {
        (self.sample_rate as u64) * 1000 / (self.fft_size as u64)
    }

    /// Get the spectrum size (FFT size / 2).
    pub fn spectrum_size(&self) -> (r: usize)
        ensures
            r == self.fft_size as int / 2,
    {
        self.fft_size / 2
    }
}

/// Configuration for the streaming pitch-correction engine.
#[derive(Debug, Clone, Copy, PartialEq, Eq, Structural)]
pub struct AutotuneConfig {
    /// FFT size (must be a power of 2).
    pub fft_size: usize,
    /// Hop size in samples (must be smaller than the FFT size).
    pub hop_size: usize,
    /// Sample rate in hertz.
    pub sample_rate: i32,
    /// Speed of pitch correction transition, in thousandths.
    pub transition_speed: u32,
    /// Strength of pitch correction, in thousandths.
    pub pitch_correction_strength: u32,
    /// Below this frequency (millihertz) correction is skipped.
    pub min_frequency: u64,
    /// Above this frequency (millihertz) correction is skipped.
    pub max_frequency: u64,
}

impl AutotuneConfig {
    /// Create a new configuration, rejecting a frame that is not a power of
    /// two, a hop that does not fit strictly inside the frame, or a
    /// non-positive sample rate; the remaining fields take the real-time
    /// preset values.
    pub fn new(fft_size: usize, hop_size: usize, sample_rate: i32) -> (r: Result<
        Self,
        VocalEffectsError,
    >)
        ensures
            r is Ok <==> is_pow2(fft_size as int) && 0 < hop_size < fft_size && sample_rate > 0,
            r is Err ==> r == Err::<Self, VocalEffectsError>(
                VocalEffectsError::InvalidConfiguration,
            ),
            r is Ok ==> r->Ok_0 == (AutotuneConfig {
                fft_size,
                hop_size,
                sample_rate,
                transition_speed: 200u32,
                pitch_correction_strength: 800u32,
                min_frequency: 80_000u64,
                max_frequency: 2_000_000u64,
            }),
    {
        if !crate::fft_config::is_power_of_two(fft_size) {
            return Err(VocalEffectsError::InvalidConfiguration);
        }
        if hop_size == 0 || hop_size >= fft_size {
            return Err(VocalEffectsError::InvalidConfiguration);
        }
        if sample_rate <= 0 {
            return Err(VocalEffectsError::InvalidConfiguration);
        }
        Ok(
            AutotuneConfig {
                fft_size,
                hop_size,
                sample_rate,
                transition_speed: 200,
                pitch_correction_strength: 800,
                min_frequency: 80_000,
                max_frequency: 2_000_000,
            },
        )
    }

    /// Whether correction is skipped for this frame: the detected frequency
    /// (millihertz) lies outside the configured processing window, so the
    /// caller passes the audio through unmodified.
    pub fn skip_correction(&self, frequency: u64) -> (r: bool)
        ensures
            r == (frequency < self.min_frequency || frequency > self.max_frequency),
    {
        frequency < self.min_frequency || frequency > self.max_frequency
    }
}

impl Default for AutotuneConfig {
    /// The real-time preset.
    fn default() -> (r: Self)
        ensures
            r == (AutotuneConfig {
                fft_size: 1024usize,
                hop_size: 256usize,
                sample_rate: 48000i32,
                transition_speed: 200u32,
                pitch_correction_strength: 800u32,
                min_frequency: 80_000u64,
                max_frequency: 2_000_000u64,
            }),
    {
        AutotuneConfig {
            fft_size: 1024,
            hop_size: 256,
            sample_rate: 48000,
            transition_speed: 200,
            pitch_correction_strength: 800,
            min_frequency: 80_000,
            max_frequency: 2_000_000,
        }
    }
}

} // verus!
