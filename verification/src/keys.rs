//! The 24 musical keys: note names, chromatic roots, and frequency lookup.
//!
//! Keys 0 to 11 are the major keys in circle-of-fifths order starting at C;
//! keys 12 to 23 are the minor keys starting at A minor. An out-of-range key
//! falls back to C major, as the callers expect. Frequencies come from the
//! scale tables of the `frequencies` module, in millihertz.

use vstd::prelude::*;
use crate::error::VocalEffectsError;
use crate::frequencies::{
    find_nearest_note_in_key, generate_major_scale_frequencies, generate_minor_scale_frequencies,
    lemma_scale_frequency_bounds, spec_first_nearest_in, spec_scale_frequency,
};
use crate::state::MusicalSettings;

verus! {

/// The seven note names of one key's scale.
pub type KeyScale = [&'static str; 7];

/// A key in 0..24 stands as itself; anything else falls back to C major.
pub open spec fn spec_clamp_key(key: int) -> int {
    if 0 <= key < 24 {
        key
    } else {
        0
    }
}

/// Whether the key (already clamped) is major.
pub open spec fn spec_key_is_major(key: int) -> bool {
    spec_clamp_key(key) < 12
}

/// The chromatic root index (0 = C ... 11 = B) of each key, majors in
/// circle-of-fifths order from C, then minors from A.
pub open spec fn spec_key_root(key: int) -> int {
    if key == 0 {
        0
    } else if key == 1 {
        7
    } else if key == 2 {
        2
    } else if key == 3 {
        9
    } else if key == 4 {
        4
    } else if key == 5 {
        11
    } else if key == 6 {
        6
    } else if key == 7 {
        1
    } else if key == 8 {
        5
    } else if key == 9 {
        10
    } else if key == 10 {
        3
    } else if key == 11 {
        8
    } else if key == 12 {
        9
    } else if key == 13 {
        4
    } else if key == 14 {
        11
    } else if key == 15 {
        6
    } else if key == 16 {
        1
    } else if key == 17 {
        8
    } else if key == 18 {
        2
    } else if key == 19 {
        7
    } else if key == 20 {
        0
    } else if key == 21 {
        5
    } else if key == 22 {
        10
    } else {
        3
    }
}

/// The display name of each key's root.
pub open spec fn spec_key_name(key: int) -> Seq<char> {
    if key == 0 {
        "C"@
    } else if key == 1 {
        "G"@
    } else if key == 2 {
        "D"@
    } else if key == 3 {
        "A"@
    } else if key == 4 {
        "E"@
    } else if key == 5 {
        "B"@
    } else if key == 6 {
        "F#"@
    } else if key == 7 {
        "C#"@
    } else if key == 8 {
        "F"@
    } else if key == 9 {
        "Bb"@
    } else if key == 10 {
        "Eb"@
    } else if key == 11 {
        "Ab"@
    } else if key == 12 {
        "A"@
    } else if key == 13 {
        "E"@
    } else if key == 14 {
        "B"@
    } else if key == 15 {
        "F#"@
    } else if key == 16 {
        "C#"@
    } else if key == 17 {
        "G#"@
    } else if key == 18 {
        "D"@
    } else if key == 19 {
        "G"@
    } else if key == 20 {
        "C"@
    } else if key == 21 {
        "F"@
    } else if key == 22 {
        "Bb"@
    } else {
        "Eb"@
    }
}

/// The seven note names of each key's scale, with the accidental spelling
/// conventional for that key.
pub open spec fn spec_key_notes(key: int) -> Seq<Seq<char>> {
    if key == 0 {
        seq!["C"@, "D"@, "E"@, "F"@, "G"@, "A"@, "B"@]
    } else if key == 1 {
        seq!["G"@, "A"@, "B"@, "C"@, "D"@, "E"@, "F#"@]
    } else if key == 2 {
        seq!["D"@, "E"@, "F#"@, "G"@, "A"@, "B"@, "C#"@]
    } else if key == 3 {
        seq!["A"@, "B"@, "C#"@, "D"@, "E"@, "F#"@, "G#"@]
    } else if key == 4 {
        seq!["E"@, "F#"@, "G#"@, "A"@, "B"@, "C#"@, "D#"@]
    } else if key == 5 {
        seq!["B"@, "C#"@, "D#"@, "E"@, "F#"@, "G#"@, "A#"@]
    } else if key == 6 {
        seq!["F#"@, "G#"@, "A#"@, "B"@, "C#"@, "D#"@, "E#"@]
    } else if key == 7 {
        seq!["C#"@, "D#"@, "E#"@, "F#"@, "G#"@, "A#"@, "B#"@]
    } else if key == 8 {
        seq!["F"@, "G"@, "A"@, "Bb"@, "C"@, "D"@, "E"@]
    } else if key == 9 {
        seq!["Bb"@, "C"@, "D"@, "Eb"@, "F"@, "G"@, "A"@]
    } else if key == 10 {
        seq!["Eb"@, "F"@, "G"@, "Ab"@, "Bb"@, "C"@, "D"@]
    } else if key == 11 {
        seq!["Ab"@, "Bb"@, "C"@, "Db"@, "Eb"@, "F"@, "G"@]
    } else if key == 12 {
        seq!["A"@, "B"@, "C"@, "D"@, "E"@, "F"@, "G"@]
    } else if key == 13 {
        seq!["E"@, "F#"@, "G"@, "A"@, "B"@, "C"@, "D"@]
    } else if key == 14 {
        seq!["B"@, "C#"@, "D"@, "E"@, "F#"@, "G"@, "A"@]
    } else if key == 15 {
        seq!["F#"@, "G#"@, "A"@, "B"@, "C#"@, "D"@, "E"@]
    } else if key == 16 {
        seq!["C#"@, "D#"@, "E"@, "F#"@, "G#"@, "A"@, "B"@]
    } else if key == 17 {
        seq!["G#"@, "A#"@, "B"@, "C#"@, "D#"@, "E"@, "F#"@]
    } else if key == 18 {
        seq!["D"@, "E"@, "F"@, "G"@, "A"@, "Bb"@, "C"@]
    } else if key == 19 {
        seq!["G"@, "A"@, "Bb"@, "C"@, "D"@, "Eb"@, "F"@]
    } else if key == 20 {
        seq!["C"@, "D"@, "Eb"@, "F"@, "G"@, "Ab"@, "Bb"@]
    } else if key == 21 {
        seq!["F"@, "G"@, "Ab"@, "Bb"@, "C"@, "Db"@, "Eb"@]
    } else if key == 22 {
        seq!["Bb"@, "C"@, "Db"@, "Eb"@, "F"@, "Gb"@, "Ab"@]
    } else {
        seq!["Eb"@, "F"@, "Gb"@, "Ab"@, "Bb"@, "Cb"@, "Db"@]
    }
}

/// Returns the note name from a given `scale` based on `note` (1 to 9).
/// Notes 8 and 9 wrap around to the first two degrees; anything else is out
/// of range and yields the empty name.
pub fn get_note_name(note: i32, scale: KeyScale) -> (r: &'static str)
    ensures
        1 <= note <= 7 ==> r == scale@[note - 1],
        note == 8 ==> r == scale@[0],
        note == 9 ==> r == scale@[1],
        !(1 <= note <= 9) ==> r@ == ""@,
{
    if note == 1 {
        scale[0]
    } else if note == 2 {
        scale[1]
    } else if note == 3 {
        scale[2]
    } else if note == 4 {
        scale[3]
    } else if note == 5 {
        scale[4]
    } else if note == 6 {
        scale[5]
    } else if note == 7 {
        scale[6]
    } else if note == 8 {
        scale[0]
    } else if note == 9 {
        scale[1]
    } else {
        ""
    }
}

/// Returns the note names of one of the 24 keys, falling back to C major
/// when the key is out of range.
pub fn get_key(key: i32) -> (r: KeyScale)
    ensures
        forall|d: int| 0 <= d < 7 ==> r@[d]@ == spec_key_notes(spec_clamp_key(key as int))[d],
{
    let k: i32 = if 0 <= key && key < 24 {
        key
    } else {
        0
    };
    if k == 0 {
        ["C", "D", "E", "F", "G", "A", "B"]
    } else if k == 1 {
        ["G", "A", "B", "C", "D", "E", "F#"]
    } else if k == 2 {
        ["D", "E", "F#", "G", "A", "B", "C#"]
    } else if k == 3 {
        ["A", "B", "C#", "D", "E", "F#", "G#"]
    } else if k == 4 {
        ["E", "F#", "G#", "A", "B", "C#", "D#"]
    } else if k == 5 {
        ["B", "C#", "D#", "E", "F#", "G#", "A#"]
    } else if k == 6 {
        ["F#", "G#", "A#", "B", "C#", "D#", "E#"]
    } else if k == 7 {
        ["C#", "D#", "E#", "F#", "G#", "A#", "B#"]
    } else if k == 8 {
        ["F", "G", "A", "Bb", "C", "D", "E"]
    } else if k == 9 {
        ["Bb", "C", "D", "Eb", "F", "G", "A"]
    } else if k == 10 {
        ["Eb", "F", "G", "Ab", "Bb", "C", "D"]
    } else if k == 11 {
        ["Ab", "Bb", "C", "Db", "Eb", "F", "G"]
    } else if k == 12 {
        ["A", "B", "C", "D", "E", "F", "G"]
    } else if k == 13 {
        ["E", "F#", "G", "A", "B", "C", "D"]
    } else if k == 14 {
        ["B", "C#", "D", "E", "F#", "G", "A"]
    } else if k == 15 {
        ["F#", "G#", "A", "B", "C#", "D", "E"]
    } else if k == 16 {
        ["C#", "D#", "E", "F#", "G#", "A", "B"]
    } else if k == 17 {
        ["G#", "A#", "B", "C#", "D#", "E", "F#"]
    } else if k == 18 {
        ["D", "E", "F", "G", "A", "Bb", "C"]
    } else if k == 19 {
        ["G", "A", "Bb", "C", "D", "Eb", "F"]
    } else if k == 20 {
        ["C", "D", "Eb", "F", "G", "Ab", "Bb"]
    } else if k == 21 {
        ["F", "G", "Ab", "Bb", "C", "Db", "Eb"]
    } else if k == 22 {
        ["Bb", "C", "Db", "Eb", "F", "Gb", "Ab"]
    } else {
        ["Eb", "F", "Gb", "Ab", "Bb", "Cb", "Db"]
    }
}

/// Returns the mode of the key: "Major" for the first twelve keys, "Minor"
/// for the next twelve, and "Major" again out of range.
pub fn get_mode_name(key: i32) -> (r: &'static str)
    ensures
        spec_key_is_major(key as int) ==> r@ == "Major"@,
        !spec_key_is_major(key as int) ==> r@ == "Minor"@,
{
    if 0 <= key && key < 24 {
        if key < 12 {
            "Major"
        } else {
            "Minor"
        }
    } else {
        "Major"
    }
}

/// Returns the name of the key's root, falling back to C when the key is
/// out of range.
pub fn get_key_name(key: i32) -> (r: &'static str)
    ensures
        r@ == spec_key_name(spec_clamp_key(key as int)),
{
    let k: i32 = if 0 <= key && key < 24 {
        key
    } else {
        0
    };
    if k == 0 {
        "C"
    } else if k == 1 {
        "G"
    } else if k == 2 {
        "D"
    } else if k == 3 {
        "A"
    } else if k == 4 {
        "E"
    } else if k == 5 {
        "B"
    } else if k == 6 {
        "F#"
    } else if k == 7 {
        "C#"
    } else if k == 8 {
        "F"
    } else if k == 9 {
        "Bb"
    } else if k == 10 {
        "Eb"
    } else if k == 11 {
        "Ab"
    } else if k == 12 {
        "A"
    } else if k == 13 {
        "E"
    } else if k == 14 {
        "B"
    } else if k == 15 {
        "F#"
    } else if k == 16 {
        "C#"
    } else if k == 17 {
        "G#"
    } else if k == 18 {
        "D"
    } else if k == 19 {
        "G"
    } else if k == 20 {
        "C"
    } else if k == 21 {
        "F"
    } else if k == 22 {
        "Bb"
    } else {
        "Eb"
    }
}

/// The chromatic root index of a key already known to be in range.
fn key_root(k: i32) -> (r: usize)
    requires
        0 <= k < 24,
    ensures
        r == spec_key_root(k as int),
        r < 12,
{
    if k == 0 {
        0
    } else if k == 1 {
        7
    } else if k == 2 {
        2
    } else if k == 3 {
        9
    } else if k == 4 {
        4
    } else if k == 5 {
        11
    } else if k == 6 {
        6
    } else if k == 7 {
        1
    } else if k == 8 {
        5
    } else if k == 9 {
        10
    } else if k == 10 {
        3
    } else if k == 11 {
        8
    } else if k == 12 {
        9
    } else if k == 13 {
        4
    } else if k == 14 {
        11
    } else if k == 15 {
        6
    } else if k == 16 {
        1
    } else if k == 17 {
        8
    } else if k == 18 {
        2
    } else if k == 19 {
        7
    } else if k == 20 {
        0
    } else if k == 21 {
        5
    } else if k == 22 {
        10
    } else {
        3
    }
}

/// The 70-entry scale of a key as a mathematical sequence of millihertz
/// values.
pub open spec fn spec_key_scale(key: int) -> Seq<u64> {
    Seq::new(
        70,
        |i: int|
            spec_scale_frequency(
                spec_key_root(spec_clamp_key(key)),
                spec_key_is_major(key),
                i,
            ) as u64,
    )
}

/// Returns the scale frequency table (70 millihertz entries) of one of the
/// 24 keys, falling back to C major when the key is out of range.
pub fn get_scale_by_key(key: i32) -> (r: Vec<u64>)
    ensures
        r@ == spec_key_scale(key as int),
{
    let k: i32 = if 0 <= key && key < 24 {
        key
    } else {
        0
    };
    let root = key_root(k);
    let table = if k < 12 {
        generate_major_scale_frequencies(root)
    } else {
        generate_minor_scale_frequencies(root)
    };
    proof {
        assert(table@ =~= spec_key_scale(key as int));
    }
    table
}

/// The frequency that `get_frequency` looks up: zero when the octave flag or
/// the key is out of range, else the scale entry addressed by the octave row
/// and the note.
pub open spec fn spec_get_frequency(key: int, note: int, octave: int, is_vocoder: bool) -> int {
    let offset: int = if is_vocoder {
        0
    } else {
        2
    };
    if !(octave == 1 || octave == 2 || octave == 4) {
        0
    } else if !(0 <= key < 24) {
        0
    } else {
        let octave_idx = (if octave == 4 {
            3int
        } else {
            octave
        }) + offset;
        spec_scale_frequency(spec_key_root(key), key < 12, octave_idx * 7 + note - 1)
    }
}

/// Look up the frequency (millihertz) of a specific note (1 to 9) of a
/// key. The octave flag selects the table row (1, 2 or 4; anything else
/// yields 0, as does an out-of-range key); vocoder mode addresses the
/// lower rows.
pub fn get_frequency(key: i32, note: i32, octave: i32, is_vocoder: bool) -> (r: u64)
    requires
        1 <= note <= 9,
    ensures
        r == spec_get_frequency(key as int, note as int, octave as int, is_vocoder),
{
    let offset: usize = if is_vocoder {
        0
    } else {
        2
    };
    let octave_idx: usize = if octave == 1 {
        1 + offset
    } else if octave == 2 {
        2 + offset
    } else if octave == 4 {
        3 + offset
    } else {
        return 0;
    };
    if key < 0 || key >= 24 {
        return 0;
    }
    let note_index: usize = octave_idx * 7 + (note as usize) - 1;
    let scale = get_scale_by_key(key);
    proof {
        lemma_scale_frequency_bounds(
            spec_key_root(key as int),
            (key as int) < 12,
            note_index as int,
        );
    }
    scale[note_index]
}

/// The pitch scaling that an octave flag selects, in 1/65536 units:
/// 32768 (half) for octave 1, 131072 (double) for octave 4, and unity for
/// octave 2 or any other value.
pub fn calculate_octave_factor(octave: i32) -> (r: u32)
    ensures
        octave == 1 ==> r == 32768,
        octave == 4 ==> r == 131072,
        !(octave == 1 || octave == 4) ==> r == 65536,
{
    if octave == 1 {
        32768
    } else if octave == 4 {
        131072
    } else {
        65536
    }
}

/// `f` is the frequency that auto mode resolves for `freq` in `key`: the
/// first nearest entry of the key's scale.
pub open spec fn spec_is_auto_target(key: int, freq: int, f: u64) -> bool {
    exists|t: int| spec_first_nearest_in(spec_key_scale(key), freq, f, t)
}

/// Resolve the pitch-correction target for a detected frequency
/// (millihertz): in auto mode (note 0) the nearest note of the key's scale,
/// otherwise the selected note of the key; a resolution of zero — an invalid
/// octave flag or key — is the recoverable `ProcessingFailed`.
pub fn calculate_target_frequency(exact_frequency: u64, settings: &MusicalSettings) -> (r: Result<
    u64,
    VocalEffectsError,
>)
    requires
        0 <= settings.note <= 9,
    ensures
        settings.note == 0 ==> r is Ok && spec_is_auto_target(
            settings.key as int,
            exact_frequency as int,
            r->Ok_0,
        ),
        settings.note != 0 ==> {
            let f = spec_get_frequency(
                settings.key as int,
                settings.note as int,
                settings.octave as int,
                false,
            );
            if f > 0 {
                r == Ok::<u64, VocalEffectsError>(f as u64)
            } else {
                r == Err::<u64, VocalEffectsError>(VocalEffectsError::ProcessingFailed)
            }
        },
{
    let ghost mut wit: int = 0;
    let target_frequency: u64 = if settings.note == 0 {
        let scale_frequencies = get_scale_by_key(settings.key);
        let scale_slice = scale_frequencies.as_slice();
        let nearest = find_nearest_note_in_key(exact_frequency, scale_slice);
        proof {
            let scale_seq = spec_key_scale(settings.key as int);
            assert(scale_slice@ == scale_seq);
            let t = choose|t: int|
                spec_first_nearest_in(scale_seq, exact_frequency as int, nearest, t);
            assert(spec_first_nearest_in(scale_seq, exact_frequency as int, nearest, t));
            assert(0 <= t < 70);
            assert(nearest == scale_seq[t]);
            lemma_scale_frequency_bounds(
                spec_key_root(spec_clamp_key(settings.key as int)),
                spec_key_is_major(settings.key as int),
                t,
            );
            assert(nearest as int >= 16350);
            wit = t;
        }
        nearest
    } else {
        get_frequency(settings.key, settings.note, settings.octave, false)
    };
    if target_frequency == 0 {
        return Err(VocalEffectsError::ProcessingFailed);
    }
    proof {
        if settings.note == 0 {
            assert(spec_first_nearest_in(
                spec_key_scale(settings.key as int),
                exact_frequency as int,
                target_frequency,
                wit,
            ));
            assert(spec_is_auto_target(
                settings.key as int,
                exact_frequency as int,
                target_frequency,
            ));
        }
    }
    Ok(target_frequency)
}

} // verus!
