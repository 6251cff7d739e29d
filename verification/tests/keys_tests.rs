// Frequencies are in millihertz: 440000 stands for 440 Hz.

use synthphone_vocals::keys::{
    calculate_octave_factor, calculate_target_frequency, get_frequency, get_key, get_key_name,
    get_mode_name, get_note_name, get_scale_by_key,
};
use synthphone_vocals::{MusicalSettings, ProcessingMode, VocalEffectsError};

#[test]
fn test_target_frequency_calculation() {
    let settings = MusicalSettings {
        key: 0,  // C Major
        note: 0, // Auto mode
        octave: 2,
        formant: 0,
        mode: ProcessingMode::Autotune,
    };

    // 440 Hz should snap to A (440 Hz)
    let target = calculate_target_frequency(440_000, &settings).unwrap();
    assert!(target.abs_diff(440_000) < 1_000);

    // 445 Hz should also snap to A (440 Hz)
    let target = calculate_target_frequency(445_000, &settings).unwrap();
    assert!(target.abs_diff(440_000) < 10_000);
}

#[test]
fn test_target_frequency_specific_note() {
    // Note 6 of C major is A; octave flag 2 addresses the fourth table row,
    // so the target is A4 at 440 Hz.
    let settings = MusicalSettings {
        key: 0,
        note: 6,
        octave: 2,
        formant: 0,
        mode: ProcessingMode::Autotune,
    };
    assert_eq!(calculate_target_frequency(123_456, &settings), Ok(440_000));

    // An octave flag outside {1, 2, 4} cannot be resolved: the recoverable
    // processing error comes back.
    let bad = MusicalSettings { octave: 3, ..settings };
    assert_eq!(
        calculate_target_frequency(123_456, &bad),
        Err(VocalEffectsError::ProcessingFailed)
    );
}

#[test]
fn test_get_frequency_values() {
    // A4 in C major: degree 6, octave flag 2 (non-vocoder rows start at 2).
    assert_eq!(get_frequency(0, 6, 2, false), 440_000);
    // The same note one table row down (octave flag 1) is A3.
    assert_eq!(get_frequency(0, 6, 1, false), 220_000);
    // Vocoder rows sit two octaves lower.
    assert_eq!(get_frequency(0, 6, 2, true), 110_000);
    // Invalid octave flag and out-of-range key yield zero.
    assert_eq!(get_frequency(0, 6, 3, false), 0);
    assert_eq!(get_frequency(24, 6, 2, false), 0);
    assert_eq!(get_frequency(-1, 6, 2, false), 0);
}

#[test]
fn test_get_scale_by_key_values() {
    let c_major = get_scale_by_key(0);
    assert_eq!(c_major.len(), 70);
    // Octave 0 of C major: C D E F G A B.
    assert_eq!(c_major[0], 16_350);
    assert_eq!(c_major[1], 18_350);
    assert_eq!(c_major[2], 20_600);
    assert_eq!(c_major[3], 21_830);
    assert_eq!(c_major[4], 24_500);
    assert_eq!(c_major[5], 27_500);
    assert_eq!(c_major[6], 30_870);
    // Each octave doubles.
    assert_eq!(c_major[7], 32_700);

    // Out of range falls back to C major.
    assert_eq!(get_scale_by_key(99), c_major);
}

#[test]
fn test_key_names() {
    assert_eq!(get_key_name(0), "C");
    assert_eq!(get_key_name(1), "G");
    assert_eq!(get_key_name(12), "A");
    assert_eq!(get_key_name(23), "Eb");
    assert_eq!(get_key_name(99), "C");

    assert_eq!(get_mode_name(0), "Major");
    assert_eq!(get_mode_name(11), "Major");
    assert_eq!(get_mode_name(12), "Minor");
    assert_eq!(get_mode_name(23), "Minor");
    assert_eq!(get_mode_name(24), "Major");
}

#[test]
fn test_note_names() {
    let c_major = get_key(0);
    assert_eq!(c_major, ["C", "D", "E", "F", "G", "A", "B"]);
    assert_eq!(get_note_name(1, c_major), "C");
    assert_eq!(get_note_name(7, c_major), "B");
    // Notes 8 and 9 wrap to the first two degrees.
    assert_eq!(get_note_name(8, c_major), "C");
    assert_eq!(get_note_name(9, c_major), "D");
    assert_eq!(get_note_name(0, c_major), "");
    assert_eq!(get_note_name(10, c_major), "");

    let a_minor = get_key(12);
    assert_eq!(a_minor, ["A", "B", "C", "D", "E", "F", "G"]);
    // Out of range falls back to C major.
    assert_eq!(get_key(-3), c_major);
}

#[test]
fn test_octave_factor() {
    // In 1/65536 units: half, unity, double.
    assert_eq!(calculate_octave_factor(1), 32768);
    assert_eq!(calculate_octave_factor(2), 65536);
    assert_eq!(calculate_octave_factor(4), 131072);
    assert_eq!(calculate_octave_factor(0), 65536);
    assert_eq!(calculate_octave_factor(7), 65536);
}
