//! Per-bin frequency bookkeeping: fundamental detection, harmonic indices,
//! sample-and-hold decimation, and phase wrapping.
//!
//! Magnitudes are compared as plain scaled integers (the caller picks the
//! scale; only the ordering matters here). Phases are measured in binary
//! angular units where a full turn of 2*pi is 65536 * 65536 units, so
//! wrapping is exact even for very large phase accumulations.

use vstd::prelude::*;

verus! {

/// One full turn (2*pi) in binary angular units.
pub const FULL_TURN: i64 = 0x1_0000_0000;

/// Half a turn (pi) in binary angular units.
pub const HALF_TURN: i64 = 0x8000_0000;

/// True when some bin of `m` has a strictly positive magnitude.
pub open spec fn spec_has_positive(m: Seq<i64>) -> bool {
    exists|i: int| 0 <= i < m.len() && m[i] > 0
}

/// The bin of the strongest magnitude: the first index attaining the
/// maximum, or 0 when the input is empty or nowhere positive.
pub fn find_fundamental_frequency(analysis_magnitudes: &[i64]) -> (r: usize)
    ensures
        analysis_magnitudes@.len() == 0 ==> r == 0,
        !spec_has_positive(analysis_magnitudes@) ==> r == 0,
        spec_has_positive(analysis_magnitudes@) ==> {
            &&& r < analysis_magnitudes@.len()
            &&& analysis_magnitudes@[r as int] > 0
            &&& forall|i: int|
                0 <= i < analysis_magnitudes@.len() ==> analysis_magnitudes@[i]
                    <= analysis_magnitudes@[r as int]
            &&& forall|j: int| 0 <= j < r ==> analysis_magnitudes@[j] < analysis_magnitudes@[r as int]
        },
{
    let mut max_magnitude: i64 = 0;
    let mut fundamental_bin: usize = 0;
    let mut i: usize = 0;
    while i < analysis_magnitudes.len()
        invariant
            0 <= i <= analysis_magnitudes@.len(),
            max_magnitude >= 0,
            max_magnitude == 0 ==> fundamental_bin == 0 && (forall|j: int|
                0 <= j < i ==> analysis_magnitudes@[j] <= 0),
            max_magnitude > 0 ==> {
                &&& fundamental_bin < i
                &&& analysis_magnitudes@[fundamental_bin as int] == max_magnitude
                &&& forall|j: int| 0 <= j < i ==> analysis_magnitudes@[j] <= max_magnitude
                &&& forall|j: int| 0 <= j < fundamental_bin ==> analysis_magnitudes@[j] < max_magnitude
            },
        decreases analysis_magnitudes@.len() - i,
    {
        let magnitude: i64 = analysis_magnitudes[i];
        if magnitude > max_magnitude {
            max_magnitude = magnitude;
            fundamental_bin = i;
        }
        i += 1;
    }
    fundamental_bin
}

/// The first eight harmonics of a fundamental bin: the bin indices at one
/// to eight times the fundamental index.
pub fn collect_harmonics(fundamental_index: usize) -> (r: [usize; 8])
    requires
        fundamental_index * 8 <= usize::MAX,
    ensures
        forall|k: int| 0 <= k < 8 ==> r@[k] == fundamental_index * (k + 1),
{
    let harmonics: [usize; 8] = [
        fundamental_index,
        fundamental_index * 2,
        fundamental_index * 3,
        fundamental_index * 4,
        fundamental_index * 5,
        fundamental_index * 6,
        fundamental_index * 7,
        fundamental_index * 8,
    ];
    proof {
        assert(harmonics@[0] == fundamental_index * 1);
        assert(harmonics@[1] == fundamental_index * 2);
        assert(harmonics@[2] == fundamental_index * 3);
        assert(harmonics@[3] == fundamental_index * 4);
        assert(harmonics@[4] == fundamental_index * 5);
        assert(harmonics@[5] == fundamental_index * 6);
        assert(harmonics@[6] == fundamental_index * 7);
        assert(harmonics@[7] == fundamental_index * 8);
    }
    harmonics
}

/// Sample-and-hold decimation: the held value is refreshed at the start of
/// every hold cycle of `factor` ticks and returned on every tick.
pub fn sample_rate_reduce<T: Copy>(
    sample: T,
    factor: i32,
    hold_counter: &mut i32,
    held_value: &mut T,
) -> (r: T)
    requires
        0 <= *old(hold_counter) < i32::MAX,
        factor >= 0,
    ensures
        *final(held_value) == if *old(hold_counter) == 0 {
            sample
        } else {
            *old(held_value)
        },
        r == *final(held_value),
        *final(hold_counter) == if factor != 0 {
            (*old(hold_counter) + 1) % factor as int
        } else {
            *old(hold_counter) as int
        },
{
    if *hold_counter == 0 {
        *held_value = sample;
    }
    if factor != 0 {
        *hold_counter = (*hold_counter + 1) % factor;
    }
    *held_value
}

/// Map a phase in binary angular units into the half-open turn
/// `(-HALF_TURN, HALF_TURN]`, keeping it congruent modulo a full turn.
pub fn wrap_phase(phase_in: i64) -> (r: i64)
    ensures
        -HALF_TURN < r <= HALF_TURN,
        (phase_in - r) % (FULL_TURN as int) == 0,
{
    if phase_in == i64::MIN {
        // The most negative phase is a whole number of turns.
        proof {
            vstd::arithmetic::div_mod::lemma_mod_multiples_basic(
                -0x8000_0000,
                FULL_TURN as int,
            );
        }
        return 0;
    }
    if phase_in >= 0 {
        let m: i64 = phase_in % FULL_TURN;
        if m <= HALF_TURN {
            m
        } else {
            m - FULL_TURN
        }
    } else {
        let neg: i64 = (-phase_in) % FULL_TURN;
        if neg == 0 {
            0
        } else {
            let m: i64 = FULL_TURN - neg;
            if m <= HALF_TURN {
                m
            } else {
                m - FULL_TURN
            }
        }
    }
}

} // verus!
