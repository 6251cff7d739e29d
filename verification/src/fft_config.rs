//! Transform-size configuration: power-of-two checks, feature selection for
//! the transform provider, and eager validation of the analysis parameters.
//!
//! Ratios and rates are carried as plain integers so that every check here is
//! exact: `sample_rate` is in hertz, `hop_ratio` is in 1/65536 units (so
//! 16384 stands for a hop of one quarter frame), and bin widths come back in
//! millihertz.

use vstd::prelude::*;
use vstd::arithmetic::power2::is_pow2;

verus! {

/// One whole in the 1/65536 fixed-point scale used for ratios.
pub const RATIO_ONE: u32 = 65536;

/// True exactly when `n` is a power of two.
pub fn is_power_of_two(n: usize) -> (r: bool)
    ensures
        r == is_pow2(n as int),
{
    if n == 0 {
        proof {
            reveal(is_pow2);
        }
        false
    } else {
        let x: u64 = n as u64;
        let m: u64 = x & (x - 1);
        proof {
            lemma_mask_zero_is_pow2(x);
        }
        m == 0
    }
}

/// The nonzero powers of two are exactly the values whose bit mask test
/// `x & (x - 1) == 0` succeeds.
proof fn lemma_mask_zero_is_pow2(x: u64)
    requires
        x > 0,
    ensures
        (x & ((x - 1) as u64) == 0) <==> is_pow2(x as int),
    decreases x,
{
    reveal(is_pow2);
    if x == 1 {
        assert(1u64 & 0u64 == 0) by (bit_vector);
    } else {
        assert(x % 2 == 1 ==> x & ((x - 1) as u64) != 0) by (bit_vector)
            requires
                x >= 2,
        ;
        assert(x % 2 == 0 ==> ((x & ((x - 1) as u64) == 0) <==> ((x / 2) & ((x / 2 - 1) as u64)
            == 0))) by (bit_vector)
            requires
                x >= 2,
        ;
        lemma_mask_zero_is_pow2(x / 2);
    }
}

/// Get the next power of 2 greater than or equal to `n`.
pub fn next_power_of_two(n: usize) -> (r: usize)
    requires
        n <= usize::MAX / 2 + 1,
    ensures
        is_pow2(r as int),
        r >= n,
        n >= 2 ==> r < 2 * n,
        n <= 1 ==> r == 1,
{
    if n <= 1 {
        proof {
            reveal(is_pow2);
        }
        return 1;
    }
    let mut m: u64 = (n - 1) as u64;
    proof {
        lemma_smear_fills_low_bits(m);
    }
    m |= m >> 1;
    m |= m >> 2;
    m |= m >> 4;
    m |= m >> 8;
    m |= m >> 16;
    m |= m >> 32;
    let p: u64 = m + 1;
    proof {
        lemma_mask_zero_is_pow2(p);
    }
    p as usize
}

/// Smearing the highest set bit of `x` rightwards yields the value
/// `2^k - 1` for the least `k` with `x < 2^k`.
proof fn lemma_smear_fills_low_bits(x: u64)
    requires
        x >= 1,
        x <= 0x7fff_ffff_ffff_ffff,
    ensures
        ({
            let m1 = x | x >> 1;
            let m2 = m1 | m1 >> 2;
            let m3 = m2 | m2 >> 4;
            let m4 = m3 | m3 >> 8;
            let m5 = m4 | m4 >> 16;
            let m6 = m5 | m5 >> 32;
            &&& m6 >= x
            &&& m6 < 2 * x
            &&& ((m6 + 1) as u64) & m6 == 0
        }),
{
    assert(({
        let m1 = x | x >> 1;
        let m2 = m1 | m1 >> 2;
        let m3 = m2 | m2 >> 4;
        let m4 = m3 | m3 >> 8;
        let m5 = m4 | m4 >> 16;
        let m6 = m5 | m5 >> 32;
        &&& m6 >= x
        &&& m6 < 2 * x
        &&& ((m6 + 1) as u64) & m6 == 0
    })) by (bit_vector)
        requires
            x >= 1,
            x <= 0x7fff_ffff_ffff_ffff,
    ;
}

/// The transform feature name that covers a frame of `fft_size` samples;
/// a degenerate size of zero falls to the catch-all largest size.
pub open spec fn spec_suggested_feature(fft_size: int) -> Seq<char> {
    if fft_size <= 0 {
        "size-32768"@
    } else if fft_size <= 4 {
        "size-4"@
    } else if fft_size <= 8 {
        "size-8"@
    } else if fft_size <= 16 {
        "size-16"@
    } else if fft_size <= 32 {
        "size-32"@
    } else if fft_size <= 64 {
        "size-64"@
    } else if fft_size <= 128 {
        "size-128"@
    } else if fft_size <= 256 {
        "size-256"@
    } else if fft_size <= 512 {
        "size-512"@
    } else if fft_size <= 1024 {
        "size-1024"@
    } else if fft_size <= 2048 {
        "size-2048"@
    } else if fft_size <= 4096 {
        "size-4096"@
    } else if fft_size <= 8192 {
        "size-8192"@
    } else if fft_size <= 16384 {
        "size-16384"@
    } else {
        "size-32768"@
    }
}

/// Suggest the smallest transform feature that still covers `fft_size`.
pub fn suggest_microfft_feature(fft_size: usize) -> (r: &'static str)
    ensures
        r@ == spec_suggested_feature(fft_size as int),
{
    if fft_size == 0 {
        "size-32768"
    } else if fft_size <= 4 {
        "size-4"
    } else if fft_size <= 8 {
        "size-8"
    } else if fft_size <= 16 {
        "size-16"
    } else if fft_size <= 32 {
        "size-32"
    } else if fft_size <= 64 {
        "size-64"
    } else if fft_size <= 128 {
        "size-128"
    } else if fft_size <= 256 {
        "size-256"
    } else if fft_size <= 512 {
        "size-512"
    } else if fft_size <= 1024 {
        "size-1024"
    } else if fft_size <= 2048 {
        "size-2048"
    } else if fft_size <= 4096 {
        "size-4096"
    } else if fft_size <= 8192 {
        "size-8192"
    } else if fft_size <= 16384 {
        "size-16384"
    } else {
        "size-32768"
    }
}

/// The conditions under which an analysis configuration is accepted:
/// a power-of-two frame between 4 and 32768 samples, a positive sample
/// rate, and a hop ratio in (0, 1] of the frame.
pub open spec fn spec_valid_config(fft_size: int, sample_rate: int, hop_ratio: int) -> bool {
    &&& is_pow2(fft_size)
    &&& 4 <= fft_size <= 32768
    &&& sample_rate > 0
    &&& 0 < hop_ratio <= RATIO_ONE
}

/// Validate analysis parameters before any processing starts.
/// `sample_rate` is in hertz; `hop_ratio` is in 1/65536 units.
pub fn validate_config(fft_size: usize, sample_rate: i32, hop_ratio: u32) -> (r: Result<
    (),
    &'static str,
>)
    ensures
        r is Ok <==> spec_valid_config(fft_size as int, sample_rate as int, hop_ratio as int),
        !is_pow2(fft_size as int) ==> r == Err::<(), &'static str>("FFT size must be a power of 2"),
        is_pow2(fft_size as int) && !(4 <= fft_size <= 32768) ==> r == Err::<(), &'static str>(
            "FFT size must be between 4 and 32768",
        ),
        is_pow2(fft_size as int) && 4 <= fft_size <= 32768 && sample_rate <= 0 ==> r == Err::<
            (),
            &'static str,
        >("Sample rate must be positive"),
        is_pow2(fft_size as int) && 4 <= fft_size <= 32768 && sample_rate > 0 && !(0 < hop_ratio
            <= RATIO_ONE) ==> r == Err::<(), &'static str>("Hop ratio must be between 0.0 and 1.0"),
{
    if !is_power_of_two(fft_size) {
        return Err("FFT size must be a power of 2");
    }
    if !(4 <= fft_size && fft_size <= 32768) {
        return Err("FFT size must be between 4 and 32768");
    }
    if sample_rate <= 0 {
        return Err("Sample rate must be positive");
    }
    if hop_ratio == 0 || hop_ratio > RATIO_ONE {
        return Err("Hop ratio must be between 0.0 and 1.0");
    }
    Ok(())
}

/// Configuration struct for FFT parameters.
///
/// `sample_rate` is in hertz, `hop_ratio` in 1/65536 units.
#[derive(Debug, Clone, Copy, PartialEq, Eq, Structural)]
pub struct FFTConfig {
    pub fft_size: usize,
    pub sample_rate: i32,
    pub hop_ratio: u32,
    pub buffer_multiplier: usize,
    pub block_size: usize,
}

impl FFTConfig {
    /// Create a new FFT configuration with validation.
    pub fn new(
        fft_size: usize,
        sample_rate: i32,
        hop_ratio: u32,
        buffer_multiplier: usize,
        block_size: usize,
    ) -> (r: Result<Self, &'static str>)
        ensures
            r is Ok <==> spec_valid_config(fft_size as int, sample_rate as int, hop_ratio as int)
                && buffer_multiplier >= 1 && block_size >= 1,
            r is Ok ==> r->Ok_0 == (FFTConfig {
                fft_size,
                sample_rate,
                hop_ratio,
                buffer_multiplier,
                block_size,
            }),
    {
        match validate_config(fft_size, sample_rate, hop_ratio) {
            Ok(()) => (),
            Err(e) => {
                return Err(e);
            },
        }
        if buffer_multiplier < 1 {
            return Err("buffer_multiplier must be at least 1");
        }
        if block_size < 1 {
            return Err("block_size must be at least 1");
        }
        Ok(FFTConfig { fft_size, sample_rate, hop_ratio, buffer_multiplier, block_size })
    }

    /// Create a default configuration for the given FFT size and sample rate:
    /// quarter-frame hop, four frames of buffer, blocks of two.
    pub fn default_for(fft_size: usize, sample_rate: i32) -> (r: Result<Self, &'static str>)
        ensures
            r is Ok <==> spec_valid_config(fft_size as int, sample_rate as int, 16384),
            r is Ok ==> r->Ok_0 == (FFTConfig {
                fft_size,
                sample_rate,
                hop_ratio: 16384u32,
                buffer_multiplier: 4usize,
                block_size: 2usize,
            }),
    {
        Self::new(fft_size, sample_rate, 16384, 4, 2)
    }

    /// Get the buffer size for this configuration.
    pub fn buffer_size(&self) -> (r: usize)
        requires
            self.fft_size * self.buffer_multiplier <= usize::MAX,
        ensures
            r == self.fft_size * self.buffer_multiplier,
    {
        self.fft_size * self.buffer_multiplier
    }

    /// Get the hop size in samples for this configuration.
    pub fn hop_size(&self) -> (r: usize)
        requires
            self.fft_size * self.hop_ratio <= usize::MAX,
        ensures
            r == self.fft_size * self.hop_ratio as int / 65536,
    {
        (self.fft_size * (self.hop_ratio as usize)) / 65536
    }

    /// Get the frequency bin width for this configuration, in millihertz.
    pub fn bin_width(&self) -> (r: u64)
        requires
            self.fft_size >= 1,
            self.sample_rate >= 0,
        ensures
            r == self.sample_rate * 1000 / self.fft_size as int,
    {
        (self.sample_rate as u64) * 1000 / (self.fft_size as u64)
    }

    /// Get the suggested transform feature for this configuration.
    pub fn suggested_microfft_feature(&self) -> (r: &'static str)
        ensures
            r@ == spec_suggested_feature(self.fft_size as int),
    {
        suggest_microfft_feature(self.fft_size)
    }
}

impl Default for FFTConfig {
    /// A 1024-sample frame at 48 kHz with a quarter-frame hop.
    fn default() -> (r: Self)
        ensures
            r == (FFTConfig {
                fft_size: 1024usize,
                sample_rate: 48000i32,
                hop_ratio: 16384u32,
                buffer_multiplier: 4usize,
                block_size: 2usize,
            }),
    {
        FFTConfig {
            fft_size: 1024,
            sample_rate: 48000,
            hop_ratio: 16384,
            buffer_multiplier: 4,
            block_size: 2,
        }
    }
}

} // verus!
