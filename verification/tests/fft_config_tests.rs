use synthphone_vocals::fft_config::{
    is_power_of_two, next_power_of_two, suggest_microfft_feature, validate_config, FFTConfig,
};

#[test]
fn test_is_power_of_two() {
    assert!(is_power_of_two(1));
    assert!(is_power_of_two(2));
    assert!(is_power_of_two(4));
    assert!(is_power_of_two(8));
    assert!(is_power_of_two(1024));
    assert!(is_power_of_two(2048));

    assert!(!is_power_of_two(0));
    assert!(!is_power_of_two(3));
    assert!(!is_power_of_two(5));
    assert!(!is_power_of_two(1023));
}

#[test]
fn test_next_power_of_two() {
    assert_eq!(next_power_of_two(1), 1);
    assert_eq!(next_power_of_two(2), 2);
    assert_eq!(next_power_of_two(3), 4);
    assert_eq!(next_power_of_two(5), 8);
    assert_eq!(next_power_of_two(1000), 1024);
    assert_eq!(next_power_of_two(1024), 1024);
    assert_eq!(next_power_of_two(1025), 2048);
}

#[test]
fn test_suggest_microfft_feature() {
    assert_eq!(suggest_microfft_feature(4), "size-4");
    assert_eq!(suggest_microfft_feature(16), "size-16");
    assert_eq!(suggest_microfft_feature(1024), "size-1024");
    assert_eq!(suggest_microfft_feature(4096), "size-4096");
    assert_eq!(suggest_microfft_feature(8192), "size-8192");
}

#[test]
fn test_suggest_microfft_feature_degenerate() {
    // A size of zero falls to the catch-all largest size.
    assert_eq!(suggest_microfft_feature(0), "size-32768");
    assert_eq!(suggest_microfft_feature(1), "size-4");
    assert_eq!(suggest_microfft_feature(40000), "size-32768");
}

#[test]
fn test_validate_config() {
    // Hop ratios are in 1/65536 units: 16384 is a quarter, 8192 an eighth.
    assert!(validate_config(1024, 48000, 16384).is_ok());
    assert!(validate_config(2048, 44100, 8192).is_ok());

    assert!(validate_config(1023, 48000, 16384).is_err()); // Not power of 2
    assert!(validate_config(1024, -48000, 16384).is_err()); // Negative sample rate
    assert!(validate_config(1024, 48000, 0).is_err()); // Zero hop ratio
    assert!(validate_config(1024, 48000, 98304).is_err()); // Hop ratio > 1.0
}

#[test]
fn test_fft_config_struct() {
    let config = FFTConfig::new(1024, 48000, 16384, 4, 2).unwrap();

    assert_eq!(config.fft_size, 1024);
    assert_eq!(config.sample_rate, 48000);
    assert_eq!(config.hop_ratio, 16384);
    assert_eq!(config.buffer_size(), 4096);
    assert_eq!(config.hop_size(), 256);
    assert_eq!(config.bin_width(), 46875); // millihertz: 46.875 Hz
    assert_eq!(config.suggested_microfft_feature(), "size-1024");
}

#[test]
fn test_fft_config_default_for() {
    let config = FFTConfig::default_for(2048, 44100).unwrap();

    assert_eq!(config.fft_size, 2048);
    assert_eq!(config.sample_rate, 44100);
    assert_eq!(config.hop_ratio, 16384);
    assert_eq!(config.buffer_multiplier, 4);
    assert_eq!(config.block_size, 2);
}

#[test]
fn test_fft_config_default() {
    let config = FFTConfig::default();
    assert_eq!(config.fft_size, 1024);
    assert_eq!(config.sample_rate, 48000);
    assert_eq!(config.hop_ratio, 16384);
    assert_eq!(config.hop_size(), 256);
}

#[test]
fn test_validate_config_messages() {
    assert_eq!(
        validate_config(1023, 48000, 16384),
        Err("FFT size must be a power of 2")
    );
    assert_eq!(
        validate_config(65536, 48000, 16384),
        Err("FFT size must be between 4 and 32768")
    );
    assert_eq!(
        validate_config(1024, 0, 16384),
        Err("Sample rate must be positive")
    );
    assert_eq!(
        validate_config(1024, 48000, 65537),
        Err("Hop ratio must be between 0.0 and 1.0")
    );
}
