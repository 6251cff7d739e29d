//! Musical scale frequency tables and nearest-note lookup.
//!
//! Frequencies are carried in millihertz, where every value is exact: each
//! table entry is a base note of the lowest octave (for instance A at 27500
//! millihertz) multiplied by a power of two. Each scale spans seven degrees
//! over ten octaves, and there are twelve major and twelve minor scales.

use vstd::prelude::*;
use vstd::arithmetic::power2::{lemma2_to64, lemma_pow2_strictly_increases, lemma_pow2_unfold, pow2};
use vstd::arithmetic::div_mod::{
    lemma_add_mod_noop, lemma_fundamental_div_mod_converse, lemma_mod_bound,
};
verus! {

/// The number of degrees in a scale.
pub const SCALE_NOTES: usize = 7;

/// The number of octaves each table spans.
pub const MAX_OCTAVES: usize = 10;

/// Entries in one scale table.
pub const SCALE_LEN: usize = 70;

/// Entries in the combined table of all 24 scales.
pub const TABLE_LEN: usize = 1680;

/// The twelve chromatic base frequencies of the lowest octave, in
/// millihertz, from C up to B.
pub open spec fn spec_base_frequency(semitone: int) -> int {
    if semitone == 0 {
        16350
    } else if semitone == 1 {
        17320
    } else if semitone == 2 {
        18350
    } else if semitone == 3 {
        19450
    } else if semitone == 4 {
        20600
    } else if semitone == 5 {
        21830
    } else if semitone == 6 {
        23120
    } else if semitone == 7 {
        24500
    } else if semitone == 8 {
        25960
    } else if semitone == 9 {
        27500
    } else if semitone == 10 {
        29140
    } else {
        30870
    }
}

/// Cumulative semitone offset of scale degree `degree` in a major scale
/// (whole, whole, half, whole, whole, whole, half).
pub open spec fn spec_major_offset(degree: int) -> int {
    if degree <= 0 {
        0
    } else if degree == 1 {
        2
    } else if degree == 2 {
        4
    } else if degree == 3 {
        5
    } else if degree == 4 {
        7
    } else if degree == 5 {
        9
    } else if degree == 6 {
        11
    } else {
        12
    }
}

/// Cumulative semitone offset of scale degree `degree` in a natural minor
/// scale (whole, half, whole, whole, half, whole, whole).
pub open spec fn spec_minor_offset(degree: int) -> int {
    if degree <= 0 {
        0
    } else if degree == 1 {
        2
    } else if degree == 2 {
        3
    } else if degree == 3 {
        5
    } else if degree == 4 {
        7
    } else if degree == 5 {
        8
    } else if degree == 6 {
        10
    } else {
        12
    }
}

/// Entry `i` (0 to 69) of the scale rooted at `root`: degree `i % 7` of the
/// scale, raised by `i / 7` octaves. The chromatic index wraps modulo 12
/// without carrying into the octave, exactly as the tables are built.
pub open spec fn spec_scale_frequency(root: int, is_major: bool, i: int) -> int {
    let offset = if is_major {
        spec_major_offset(i % 7)
    } else {
        spec_minor_offset(i % 7)
    };
    spec_base_frequency((root + offset) % 12) * pow2((i / 7) as nat)
}

/// Entry `t` (0 to 1679) of the combined table: the twelve major scales
/// rooted chromatically at C through B, then the twelve minor scales.
pub open spec fn spec_table_frequency(t: int) -> int {
    if t / 70 < 12 {
        spec_scale_frequency(t / 70, true, t % 70)
    } else {
        spec_scale_frequency(t / 70 - 12, false, t % 70)
    }
}

/// The absolute difference of two frequencies.
pub open spec fn spec_distance(a: int, b: int) -> int {
    if a >= b {
        a - b
    } else {
        b - a
    }
}

/// The chromatic base frequency of the lowest octave, in millihertz.
fn base_frequency(semitone: usize) -> (r: u64)
    requires
        semitone < 12,
    ensures
        r == spec_base_frequency(semitone as int),
        16350 <= r <= 30870,
{
    if semitone == 0 {
        16350
    } else if semitone == 1 {
        17320
    } else if semitone == 2 {
        18350
    } else if semitone == 3 {
        19450
    } else if semitone == 4 {
        20600
    } else if semitone == 5 {
        21830
    } else if semitone == 6 {
        23120
    } else if semitone == 7 {
        24500
    } else if semitone == 8 {
        25960
    } else if semitone == 9 {
        27500
    } else if semitone == 10 {
        29140
    } else {
        30870
    }
}

/// The semitone step from scale degree `degree` to the next.
fn scale_step(degree: usize, is_major: bool) -> (r: usize)
    requires
        degree < 7,
    ensures
        is_major ==> r == spec_major_offset(degree as int + 1) - spec_major_offset(degree as int),
        !is_major ==> r == spec_minor_offset(degree as int + 1) - spec_minor_offset(degree as int),
{
    if is_major {
        if degree == 2 || degree == 6 {
            1
        } else {
            2
        }
    } else {
        if degree == 1 || degree == 4 {
            1
        } else {
            2
        }
    }
}

/// Every table entry lies between the lowest base note and the highest base
/// note raised nine octaves.
pub proof fn lemma_scale_frequency_bounds(root: int, is_major: bool, i: int)
    requires
        0 <= root < 12,
        0 <= i < 70,
    ensures
        16350 <= spec_scale_frequency(root, is_major, i) <= 30870 * 512,
{
    lemma_mod_bound(root + spec_major_offset(i % 7), 12);
    lemma_mod_bound(root + spec_minor_offset(i % 7), 12);
    lemma_mod_bound(i, 7);
    assert(0 <= i / 7 < 10) by (nonlinear_arith)
        requires
            0 <= i < 70,
    ;
    lemma2_to64();
    let e = (i / 7) as nat;
    let b = spec_base_frequency((root + if is_major {
        spec_major_offset(i % 7)
    } else {
        spec_minor_offset(i % 7)
    }) % 12);
    assert(1 <= pow2(e) <= 512) by {
        if e < 9 {
            lemma_pow2_strictly_increases(e, 9);
        }
    }
    assert(16350 * 1 <= b * pow2(e) <= 30870 * 512) by (nonlinear_arith)
        requires
            16350 <= b <= 30870,
            1 <= pow2(e) <= 512,
    ;
}

/// Build one scale table: seven degrees over ten octaves, rooted at the
/// given chromatic index.
fn scale_frequencies_from(root_index: usize, is_major: bool) -> (r: Vec<u64>)
    requires
        root_index < 12,
    ensures
        r@.len() == 70,
        forall|i: int|
            0 <= i < 70 ==> r@[i] as int == spec_scale_frequency(root_index as int, is_major, i),
{
    let mut freqs: Vec<u64> = Vec::new();
    let mut octave: usize = 0;
    let mut mult: u64 = 1;
    proof {
        lemma2_to64();
    }
    while octave < 10
        invariant
            root_index < 12,
            octave <= 10,
            freqs@.len() == 7 * octave,
            mult == pow2(octave as nat),
            mult <= 1024,
            forall|i: int|
                0 <= i < 7 * octave ==> freqs@[i] as int == spec_scale_frequency(
                    root_index as int,
                    is_major,
                    i,
                ),
        decreases 10 - octave,
    {
        proof {
            lemma2_to64();
            if octave < 9 {
                lemma_pow2_strictly_increases(octave as nat, 9);
            }
        }
        let mut current: usize = root_index;
        let mut step: usize = 0;
        while step < 7
            invariant
                root_index < 12,
                octave < 10,
                step <= 7,
                current < 12,
                mult == pow2(octave as nat),
                mult <= 512,
                current as int == (root_index + if is_major {
                    spec_major_offset(step as int)
                } else {
                    spec_minor_offset(step as int)
                }) % 12,
                freqs@.len() == 7 * octave + step,
                forall|i: int|
                    0 <= i < 7 * octave + step ==> freqs@[i] as int == spec_scale_frequency(
                        root_index as int,
                        is_major,
                        i,
                    ),
            decreases 7 - step,
        {
            let f: u64 = base_frequency(current) * mult;
            freqs.push(f);
            proof {
                lemma_fundamental_div_mod_converse(
                    (7 * octave + step) as int,
                    7,
                    octave as int,
                    step as int,
                );
            }
            let s = scale_step(step, is_major);
            proof {
                lemma_add_mod_noop(current as int, s as int, 12);
                lemma_mod_bound(current as int + s as int, 12);
                vstd::arithmetic::div_mod::lemma_mod_twice(
                    root_index as int + if is_major {
                        spec_major_offset(step as int)
                    } else {
                        spec_minor_offset(step as int)
                    },
                    12,
                );
                vstd::arithmetic::div_mod::lemma_small_mod((s % 12) as nat, 12nat);
            }
            current = (current + s) % 12;
            step += 1;
        }
        octave += 1;
        proof {
            lemma_pow2_unfold(octave as nat);
        }
        mult = mult * 2;
    }
    freqs
}

/// The major scale rooted at chromatic index `root_index`, as seven degrees
/// over ten octaves, in millihertz.
pub fn generate_major_scale_frequencies(root_index: usize) -> (r: Vec<u64>)
    requires
        root_index < 12,
    ensures
        r@.len() == 70,
        forall|i: int|
            0 <= i < 70 ==> r@[i] as int == spec_scale_frequency(root_index as int, true, i),
{
    scale_frequencies_from(root_index, true)
}

/// The natural minor scale rooted at chromatic index `root_index`, as seven
/// degrees over ten octaves, in millihertz.
pub fn generate_minor_scale_frequencies(root_index: usize) -> (r: Vec<u64>)
    requires
        root_index < 12,
    ensures
        r@.len() == 70,
        forall|i: int|
            0 <= i < 70 ==> r@[i] as int == spec_scale_frequency(root_index as int, false, i),
{
    scale_frequencies_from(root_index, false)
}

/// `r` is the entry of `freqs` at index `t`, no entry is nearer to `input`,
/// and every earlier entry is strictly farther: the first nearest entry.
pub open spec fn spec_first_nearest_in(freqs: Seq<u64>, input: int, r: u64, t: int) -> bool {
    &&& 0 <= t < freqs.len()
    &&& r == freqs[t]
    &&& forall|u: int|
        0 <= u < freqs.len() ==> spec_distance(input, r as int) <= spec_distance(
            input,
            #[trigger] freqs[u] as int,
        )
    &&& forall|u: int|
        0 <= u < t ==> spec_distance(input, r as int) < spec_distance(
            input,
            #[trigger] freqs[u] as int,
        )
}

/// `r` is the combined-table entry at index `t`, no table entry is nearer to
/// `input`, and every earlier entry is strictly farther.
pub open spec fn spec_first_nearest_note(input: int, r: u64, t: int) -> bool {
    &&& 0 <= t < 1680
    &&& r == spec_table_frequency(t)
    &&& forall|u: int|
        0 <= u < 1680 ==> spec_distance(input, r as int) <= spec_distance(
            input,
            #[trigger] spec_table_frequency(u),
        )
    &&& forall|u: int|
        0 <= u < t ==> spec_distance(input, r as int) < spec_distance(
            input,
            #[trigger] spec_table_frequency(u),
        )
}

/// Snap a frequency (millihertz) to the nearest entry of the given scale
/// table. On a tie the earlier entry wins, so the result is the first entry
/// at minimal distance.
pub fn find_nearest_note_in_key(input_frequency: u64, key_frequencies: &[u64]) -> (r: u64)
    requires
        key_frequencies@.len() >= 1,
    ensures
        exists|t: int| spec_first_nearest_in(key_frequencies@, input_frequency as int, r, t),
{
    let mut nearest_frequency: u64 = key_frequencies[0];
    let mut min_difference: u64 = abs_diff(input_frequency, nearest_frequency);
    let ghost mut best: int = 0;
    let mut t: usize = 1;
    while t < key_frequencies.len()
        invariant
            key_frequencies@.len() >= 1,
            1 <= t <= key_frequencies@.len(),
            0 <= best < t,
            nearest_frequency == key_frequencies@[best],
            min_difference == spec_distance(input_frequency as int, nearest_frequency as int),
            forall|u: int|
                0 <= u < t ==> min_difference <= spec_distance(
                    input_frequency as int,
                    #[trigger] key_frequencies@[u] as int,
                ),
            forall|u: int|
                0 <= u < best ==> min_difference < spec_distance(
                    input_frequency as int,
                    #[trigger] key_frequencies@[u] as int,
                ),
        decreases key_frequencies@.len() - t,
    {
        let frequency = key_frequencies[t];
        let difference = abs_diff(input_frequency, frequency);
        if difference < min_difference {
            min_difference = difference;
            nearest_frequency = frequency;
            proof {
                best = t as int;
            }
        }
        t += 1;
    }
    proof {
        assert(spec_first_nearest_in(
            key_frequencies@,
            input_frequency as int,
            nearest_frequency,
            best,
        ));
    }
    nearest_frequency
}

/// Snap a frequency (millihertz) to the nearest note of any of the 24
/// scales, scanning the scales in table order; on a tie the earliest entry
/// wins.
pub fn find_nearest_note_frequency(input_frequency: u64) -> (r: u64)
    ensures
        exists|t: int| spec_first_nearest_note(input_frequency as int, r, t),
{
    let mut nearest_frequency: u64 = 16350;
    proof {
        lemma2_to64();
        assert(spec_table_frequency(0) == 16350 * pow2(0nat));
    }
    let mut min_difference: u64 = abs_diff(input_frequency, nearest_frequency);
    let ghost mut best: int = 0;
    let mut scale: usize = 0;
    while scale < 24
        invariant
            scale <= 24,
            0 <= best,
            best < if scale == 0 {
                1int
            } else {
                70 * scale
            },
            nearest_frequency as int == spec_table_frequency(best),
            min_difference == spec_distance(input_frequency as int, nearest_frequency as int),
            forall|u: int|
                0 <= u < 70 * scale ==> min_difference <= spec_distance(
                    input_frequency as int,
                    #[trigger] spec_table_frequency(u),
                ),
            forall|u: int|
                0 <= u < best ==> min_difference < spec_distance(
                    input_frequency as int,
                    #[trigger] spec_table_frequency(u),
                ),
        decreases 24 - scale,
    {
        let table: Vec<u64> = if scale < 12 {
            generate_major_scale_frequencies(scale)
        } else {
            generate_minor_scale_frequencies(scale - 12)
        };
        proof {
            assert forall|k: int| 0 <= k < 70 implies table@[k] as int == spec_table_frequency(
                70 * scale + k,
            ) by {
                lemma_fundamental_div_mod_converse(70 * scale as int + k, 70, scale as int, k);
            }
        }
        let mut i: usize = 0;
        while i < 70
            invariant
                scale < 24,
                i <= 70,
                table@.len() == 70,
                forall|k: int|
                    0 <= k < 70 ==> table@[k] as int == spec_table_frequency(70 * scale + k),
                0 <= best < 70 * scale + if i == 0 && scale == 0 {
                    1int
                } else {
                    i as int
                },
                best < 1680,
                nearest_frequency as int == spec_table_frequency(best),
                min_difference == spec_distance(input_frequency as int, nearest_frequency as int),
                forall|u: int|
                    0 <= u < 70 * scale + i ==> min_difference <= spec_distance(
                        input_frequency as int,
                        #[trigger] spec_table_frequency(u),
                    ),
                forall|u: int|
                    0 <= u < best ==> min_difference < spec_distance(
                        input_frequency as int,
                        #[trigger] spec_table_frequency(u),
                    ),
            decreases 70 - i,
        {
            let frequency = table[i];
            let difference = abs_diff(input_frequency, frequency);
            if difference < min_difference {
                min_difference = difference;
                nearest_frequency = frequency;
                proof {
                    best = 70 * scale as int + i as int;
                }
            }
            i += 1;
        }
        scale += 1;
    }
    proof {
        assert(spec_first_nearest_note(input_frequency as int, nearest_frequency, best));
    }
    nearest_frequency
}

/// The absolute difference of two frequencies in millihertz.
fn abs_diff(a: u64, b: u64) -> (r: u64)
    ensures
        r == spec_distance(a as int, b as int),
{
    if a >= b {
        a - b
    } else {
        b - a
    }
}

} // verus!
