//! The real-time streaming schedule: which buffer slot each audio tick
//! touches, and when a frame of processing is due.
//!
//! The interrupt-context producer calls `advance` once per tick; the step it
//! gets back says where the incoming sample goes, whether a full
//! analysis-resynthesis frame must run now (every `hop_size` ticks), and
//! which slot of the output buffer to play — or that output is not ready
//! yet, in which case the caller falls back to attenuated pass-through
//! rather than blocking. The numeric signal work happens outside; every
//! decision here is verified.

use vstd::prelude::*;
use crate::config::AutotuneConfig;

verus! {

/// What one audio tick must do.
#[derive(Debug, Clone, Copy, PartialEq, Eq, Structural)]
pub struct SampleStep {
    /// The input-buffer slot that receives the incoming sample.
    pub write_index: usize,
    /// Whether a full processing frame is due on this tick.
    pub process_frame: bool,
    /// The output-buffer slot to play, or nothing while output is not ready
    /// yet (the caller substitutes attenuated pass-through).
    pub read_index: Option<usize>,
}

/// The cursor state of the streaming controller.
#[derive(Debug, Clone, Copy, PartialEq, Eq, Structural)]
pub struct RealtimeScheduler {
    /// Frame length in samples; the circular buffers have this size.
    pub fft_size: usize,
    /// Ticks between processing frames.
    pub hop_size: usize,
    /// Where the next input sample goes.
    pub write_pos: usize,
    /// Where the next output sample is read.
    pub read_pos: usize,
    /// Ticks since the last processing frame.
    pub samples_since_process: usize,
    /// Whether a processing frame has run, so output is valid.
    pub output_ready: bool,
}

impl RealtimeScheduler {
    /// The scheduler's invariant: a hop that fits in the frame and cursors
    /// inside the buffers.
    pub open spec fn wf(self) -> bool {
        &&& 0 < self.hop_size <= self.fft_size
        &&& self.write_pos < self.fft_size
        &&& self.read_pos < self.fft_size
        &&& self.samples_since_process < self.hop_size
    }

    /// A fresh schedule for the given configuration: cursors at zero and no
    /// output ready.
    pub fn new(config: &AutotuneConfig) -> (r: Self)
        requires
            0 < config.hop_size <= config.fft_size,
        ensures
            r.wf(),
            r == (RealtimeScheduler {
                fft_size: config.fft_size,
                hop_size: config.hop_size,
                write_pos: 0usize,
                read_pos: 0usize,
                samples_since_process: 0usize,
                output_ready: false,
            }),
    {
        RealtimeScheduler {
            fft_size: config.fft_size,
            hop_size: config.hop_size,
            write_pos: 0,
            read_pos: 0,
            samples_since_process: 0,
            output_ready: false,
        }
    }

    /// Return the schedule to its start: cursors at zero, no output ready,
    /// sizes kept.
    pub fn reset(&mut self)
        requires
            old(self).wf(),
        ensures
            final(self).wf(),
            *final(self) == (RealtimeScheduler {
                write_pos: 0usize,
                read_pos: 0usize,
                samples_since_process: 0usize,
                output_ready: false,
                ..*old(self)
            }),
    {
        self.write_pos = 0;
        self.read_pos = 0;
        self.samples_since_process = 0;
        self.output_ready = false;
    }

    /// Advance the schedule by one audio tick. The returned step names the
    /// input slot for this tick's sample; every `hop_size` ticks it orders a
    /// processing frame, and from the first frame on it names the output
    /// slot to play.
    pub fn advance(&mut self) -> (step: SampleStep)
        requires
            old(self).wf(),
        ensures
            final(self).wf(),
            final(self).fft_size == old(self).fft_size,
            final(self).hop_size == old(self).hop_size,
            step.write_index == old(self).write_pos,
            final(self).write_pos == (old(self).write_pos + 1) % old(self).fft_size as int,
            step.process_frame == (old(self).samples_since_process + 1 >= old(self).hop_size),
            final(self).samples_since_process == if step.process_frame {
                0int
            } else {
                old(self).samples_since_process + 1
            },
            final(self).output_ready == (old(self).output_ready || step.process_frame),
            step.read_index == if old(self).output_ready || step.process_frame {
                Some(old(self).read_pos)
            } else {
                None::<usize>
            },
            final(self).read_pos == if old(self).output_ready || step.process_frame {
                (old(self).read_pos + 1) % old(self).fft_size as int
            } else {
                old(self).read_pos as int
            },
    {
        let write_index = self.write_pos;
        self.write_pos = (self.write_pos + 1) % self.fft_size;

        let process_frame = self.samples_since_process + 1 >= self.hop_size;
        if process_frame {
            self.samples_since_process = 0;
            self.output_ready = true;
        } else {
            self.samples_since_process = self.samples_since_process + 1;
        }

        let read_index = if self.output_ready {
            let idx = self.read_pos;
            self.read_pos = (self.read_pos + 1) % self.fft_size;
            Some(idx)
        } else {
            None
        };

        SampleStep { write_index, process_frame, read_index }
    }
}

/// Configuration presets for common scenarios.
impl AutotuneConfig {
    /// A configuration for balanced latency and processor load: a quarter
    /// hop, moderate smoothing, strong correction, and an 80 Hz to 2 kHz
    /// correction window.
    pub fn realtime() -> (r: Self)
        ensures
            r == (AutotuneConfig {
                fft_size: 1024usize,
                hop_size: 256usize,
                sample_rate: 48000i32,
                transition_speed: 200u32,
                pitch_correction_strength: 800u32,
                min_frequency: 80_000u64,
                max_frequency: 2_000_000u64,
            }),
            0 < r.hop_size < r.fft_size,
    {
        AutotuneConfig {
            fft_size: 1024,
            hop_size: 256,
            sample_rate: 48000,
            transition_speed: 200,
            pitch_correction_strength: 800,
            min_frequency: 80_000,
            max_frequency: 2_000_000,
        }
    }

    /// A configuration for low latency at a higher processor load: an
    /// eighth hop with faster transitions and lighter correction.
    pub fn low_latency() -> (r: Self)
        ensures
            r == (AutotuneConfig {
                fft_size: 1024usize,
                hop_size: 128usize,
                sample_rate: 48000i32,
                transition_speed: 300u32,
                pitch_correction_strength: 700u32,
                min_frequency: 80_000u64,
                max_frequency: 2_000_000u64,
            }),
            0 < r.hop_size < r.fft_size,
    {
        AutotuneConfig {
            fft_size: 1024,
            hop_size: 128,
            sample_rate: 48000,
            transition_speed: 300,
            pitch_correction_strength: 700,
            min_frequency: 80_000,
            max_frequency: 2_000_000,
        }
    }

    /// A configuration for high quality at a lower processor load: a half
    /// hop, slower transitions, stronger correction, and a wider 60 Hz to
    /// 4 kHz window.
    pub fn high_quality() -> (r: Self)
        ensures
            r == (AutotuneConfig {
                fft_size: 1024usize,
                hop_size: 512usize,
                sample_rate: 48000i32,
                transition_speed: 150u32,
                pitch_correction_strength: 850u32,
                min_frequency: 60_000u64,
                max_frequency: 4_000_000u64,
            }),
            0 < r.hop_size < r.fft_size,
    {
        AutotuneConfig {
            fft_size: 1024,
            hop_size: 512,
            sample_rate: 48000,
            transition_speed: 150,
            pitch_correction_strength: 850,
            min_frequency: 60_000,
            max_frequency: 4_000_000,
        }
    }
}

} // verus!
