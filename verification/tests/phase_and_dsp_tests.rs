// Phases are in binary angular units: a full turn (2*pi) is FULL_TURN units,
// so a half turn stands for pi.

use synthphone_vocals::process_frequencies::{
    collect_harmonics, sample_rate_reduce, wrap_phase, FULL_TURN, HALF_TURN,
};

#[test]
fn test_wrap_phase_range() {
    // Wrapped phases land in (-pi, pi], including for large multiples of a
    // full turn in both directions.
    let inputs = [
        0,
        1,
        -1,
        HALF_TURN,
        HALF_TURN + 1,
        -HALF_TURN,
        FULL_TURN,
        -FULL_TURN,
        1_000_000 * FULL_TURN + 12345,
        -1_000_000 * FULL_TURN - 12345,
        i64::MAX,
        i64::MIN + 1,
        i64::MIN,
    ];
    for &p in inputs.iter() {
        let w = wrap_phase(p);
        assert!(-HALF_TURN < w && w <= HALF_TURN, "wrap_phase({}) = {}", p, w);
        // The wrapped value is congruent to the input modulo a full turn.
        assert_eq!((p - w).rem_euclid(FULL_TURN), 0);
    }
}

#[test]
fn test_wrap_phase_values() {
    assert_eq!(wrap_phase(0), 0);
    // The most negative phase is a whole number of turns.
    assert_eq!(wrap_phase(i64::MIN), 0);
    assert_eq!(wrap_phase(FULL_TURN), 0);
    assert_eq!(wrap_phase(-FULL_TURN), 0);
    assert_eq!(wrap_phase(HALF_TURN), HALF_TURN);
    // Just past pi wraps to just past -pi.
    assert_eq!(wrap_phase(HALF_TURN + 1), -HALF_TURN + 1);
    assert_eq!(wrap_phase(-HALF_TURN), HALF_TURN);
    assert_eq!(wrap_phase(5 * FULL_TURN + 7), 7);
}

#[test]
fn test_collect_harmonics() {
    let harmonics = collect_harmonics(3);
    assert_eq!(harmonics, [3, 6, 9, 12, 15, 18, 21, 24]);
    assert_eq!(collect_harmonics(0), [0; 8]);
}

#[test]
fn test_sample_rate_reduce() {
    let mut hold_counter: i32 = 0;
    let mut held_value: f32 = 0.0;

    // With a factor of 3 the held value refreshes every third tick.
    let out1 = sample_rate_reduce(1.0f32, 3, &mut hold_counter, &mut held_value);
    assert_eq!(out1, 1.0);
    let out2 = sample_rate_reduce(2.0f32, 3, &mut hold_counter, &mut held_value);
    assert_eq!(out2, 1.0);
    let out3 = sample_rate_reduce(3.0f32, 3, &mut hold_counter, &mut held_value);
    assert_eq!(out3, 1.0);
    let out4 = sample_rate_reduce(4.0f32, 3, &mut hold_counter, &mut held_value);
    assert_eq!(out4, 4.0);

    // A factor of zero never advances the cycle: the value refreshes on
    // every tick.
    let mut hold_counter: i32 = 0;
    let mut held_value: f32 = 0.0;
    let out = sample_rate_reduce(9.0f32, 0, &mut hold_counter, &mut held_value);
    assert_eq!(out, 9.0);
    let out = sample_rate_reduce(11.0f32, 0, &mut hold_counter, &mut held_value);
    assert_eq!(out, 11.0);
}
