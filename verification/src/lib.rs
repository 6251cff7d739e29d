//! Real-time vocal-effects engine: the verified core.
//!
//! The floating-point signal path (FFT analysis, resynthesis) lives outside
//! this crate; here stand the parts whose behaviour is exact: configuration
//! validation, the lock-step ring buffer, musical-scale frequency tables in
//! millihertz, fundamental-bin detection, and the streaming scheduler.

pub mod config;
pub mod embedded_realtime;
pub mod error;
pub mod fft_config;
pub mod frequencies;
pub mod hann_window;
pub mod keys;
pub mod oscillator;
pub mod process_frequencies;
pub mod ring_buffer;
pub mod state;

pub use config::{AutotuneConfig, VocalEffectsConfig};
pub use error::VocalEffectsError;
pub use fft_config::{is_power_of_two, next_power_of_two, suggest_microfft_feature};
pub use oscillator::Waveform;
pub use state::{MusicalSettings, ProcessingMode};
