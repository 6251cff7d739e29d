// Frequencies are in millihertz throughout: 440000 stands for 440 Hz.
// Magnitudes are scaled integers: 1000 stands for a unit magnitude.

use synthphone_vocals::frequencies::find_nearest_note_frequency;
use synthphone_vocals::process_frequencies::find_fundamental_frequency;

#[test]
fn frequency_analysis_test_find_nearest_note_frequency_exact_match() {
    let frequency = 440_000;
    let expected = 440_000;
    let result = find_nearest_note_frequency(frequency);
    assert_eq!(result, expected);
}

#[test]
fn frequency_analysis_test_find_nearest_note_frequency_in_between() {
    let frequency = 445_000;
    let expected = 440_000;
    let result = find_nearest_note_frequency(frequency);
    assert_eq!(result, expected);
}

#[test]
fn frequency_analysis_test_find_nearest_note_frequency_below_range() {
    let frequency = 10_000;
    let expected = 16_350;
    let result = find_nearest_note_frequency(frequency);
    assert_eq!(result, expected);
}

#[test]
fn frequency_analysis_test_find_nearest_note_frequency_above_range() {
    let frequency = 5_000_000;
    let result = find_nearest_note_frequency(frequency);
    // Should be close to the highest frequency in our generated scales
    assert!(result > 4_900_000 && result < 5_100_000);
}

#[test]
fn frequency_analysis_test_find_nearest_note_frequency_mid_point() {
    let frequency = 55_000;
    let result = find_nearest_note_frequency(frequency);
    // Should be close to 55 Hz (A1)
    assert!(result.abs_diff(55_000) < 100);
}

#[test]
fn frequency_analysis_test_find_nearest_note_frequency_edge_case_low() {
    let frequency = 16_000;
    let result = find_nearest_note_frequency(frequency);
    // Should be close to C0 (16.35 Hz)
    assert!(result.abs_diff(16_350) < 100);
}

#[test]
fn frequency_analysis_test_find_nearest_note_frequency_edge_case_high() {
    let frequency = 4_999_000;
    let result = find_nearest_note_frequency(frequency);
    // Should be close to the highest frequency in our generated scales
    assert!(result > 4_900_000 && result < 5_100_000);
}

#[test]
fn frequency_analysis_test_find_nearest_note_frequency_very_close_lower() {
    let frequency = 110_100;
    let expected = 110_000;
    let result = find_nearest_note_frequency(frequency);
    assert_eq!(result, expected);
}

#[test]
fn frequency_analysis_test_find_nearest_note_frequency_very_close_upper() {
    let frequency = 109_900;
    let expected = 110_000;
    let result = find_nearest_note_frequency(frequency);
    assert_eq!(result, expected);
}

#[test]
fn frequency_analysis_test_empty_input() {
    let analysis_magnitudes: [i64; 0] = [];
    let result = find_fundamental_frequency(&analysis_magnitudes);
    assert_eq!(result, 0, "Empty input should return index 0");
}

#[test]
fn frequency_analysis_test_single_element() {
    let analysis_magnitudes = [1_000];
    let result = find_fundamental_frequency(&analysis_magnitudes);
    assert_eq!(result, 0, "Single element should return index 0");
}

#[test]
fn frequency_analysis_test_all_zeros() {
    let analysis_magnitudes = [0, 0, 0];
    let result = find_fundamental_frequency(&analysis_magnitudes);
    assert_eq!(result, 0, "All zeros should return index 0");
}

#[test]
fn frequency_analysis_test_positive_magnitudes() {
    let analysis_magnitudes = [100, 500, 300, 800, 200];
    let result = find_fundamental_frequency(&analysis_magnitudes);
    assert_eq!(result, 3, "Maximum magnitude at index 3");
}

#[test]
fn frequency_analysis_test_mixed_sign_magnitudes() {
    let analysis_magnitudes = [-500, 200, 300, -100, 400];
    let result = find_fundamental_frequency(&analysis_magnitudes);
    assert_eq!(result, 4, "Maximum magnitude at index 4");
}

#[test]
fn frequency_analysis_test_multiple_maximums() {
    let analysis_magnitudes = [500, 500, 500];
    let result = find_fundamental_frequency(&analysis_magnitudes);
    assert_eq!(result, 0, "First occurrence of maximum magnitude at index 0");
}

#[test]
fn frequency_analysis_test_max_at_start() {
    let analysis_magnitudes = [900, 500, 300, 800, 200];
    let result = find_fundamental_frequency(&analysis_magnitudes);
    assert_eq!(result, 0, "Maximum magnitude at the start index 0");
}

#[test]
fn frequency_analysis_test_max_at_end() {
    let analysis_magnitudes = [100, 500, 300, 800, 1_000];
    let result = find_fundamental_frequency(&analysis_magnitudes);
    assert_eq!(result, 4, "Maximum magnitude at the end index 4");
}
