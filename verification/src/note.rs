//! Equal-tempered notes: the chromatic sequence, and the arithmetic between
//! a note with its octave and a count of semitones from A4.
//!
//! Twelve semitones make an octave, and octave numbers change at C, which
//! stands three places after A in the chromatic sequence. Turning a
//! frequency into a count of semitones, and back, takes a logarithm and is
//! the caller's; everything here is whole numbers.

use vstd::prelude::*;
use vstd::string::*;

verus! {

/// The number of notes in an octave.
pub const NOTE_COUNT: usize = 12;

/// The chromatic sequence, from A upwards.
pub open spec fn note_names() -> Seq<Seq<char>> {
    seq![
        seq!['A'],
        seq!['A', '#'],
        seq!['B'],
        seq!['C'],
        seq!['C', '#'],
        seq!['D'],
        seq!['D', '#'],
        seq!['E'],
        seq!['F'],
        seq!['F', '#'],
        seq!['G'],
        seq!['G', '#'],
    ]
}

/// The place of a name in the chromatic sequence. A name that is not in the
/// sequence has place 0, as A has.
pub open spec fn name_index(name: Seq<char>) -> int {
    if note_names().contains(name) {
        note_names().index_of(name)
    } else {
        0
    }
}

/// Semitones from A4 up to the note at place `index` of the chromatic
/// sequence in octave `octave`.
pub open spec fn semitone_offset(index: int, octave: int) -> int {
    (octave - 4) * 12 + (index - 9)
}

/// The octave of the note that lies `semitones` above A4. The division
/// rounds towards negative infinity.
pub open spec fn octave_of(semitones: int) -> int {
    4 + (semitones + 9) / 12
}

/// The place in the chromatic sequence of the note that lies `semitones`
/// above A4. The remainder is never negative.
pub open spec fn pitch_class_of(semitones: int) -> int {
    semitones % 12
}

/// No name stands twice in the chromatic sequence.
pub proof fn lemma_names_distinct()
    ensures
        note_names().len() == NOTE_COUNT,
        forall|i: int, j: int|
            0 <= i < j < NOTE_COUNT ==> #[trigger] note_names()[i] != #[trigger] note_names()[j],
{
    let names = note_names();
    assert forall|i: int, j: int| 0 <= i < j < NOTE_COUNT implies #[trigger] names[i]
        != #[trigger] names[j] by {
        let a = names[i];
        let b = names[j];
        if a.len() == b.len() {
            assert(a[0] != b[0]);
        }
    }
}

/// Every name of the chromatic sequence is found at its own place.
pub proof fn lemma_name_index_of_name(index: int)
    requires
        0 <= index < NOTE_COUNT,
    ensures
        name_index(note_names()[index]) == index,
{
    lemma_names_distinct();
    let name = note_names()[index];
    assert(note_names().contains(name));
    let found = note_names().index_of(name);
    assert(0 <= found < NOTE_COUNT && note_names()[found] == name);
    if found < index {
        assert(note_names()[found] != note_names()[index]);
    } else if index < found {
        assert(note_names()[index] != note_names()[found]);
    }
}

/// A note one octave up, twelve semitones on, has the same place in the
/// chromatic sequence and the next octave number. Doubling a frequency adds
/// twelve semitones, so it keeps the name and raises the octave by one.
pub proof fn lemma_octave_up(semitones: int)
    ensures
        pitch_class_of(semitones + 12) == pitch_class_of(semitones),
        octave_of(semitones + 12) == octave_of(semitones) + 1,
        0 <= pitch_class_of(semitones) < NOTE_COUNT,
{
}

/// From a note to its semitones and back: the octave comes back as it was,
/// and the place in the chromatic sequence comes back three places on
/// (wrapping after the twelfth), because the offset counts places from C
/// while the sequence starts at A.
pub proof fn lemma_offset_round_trip(index: int, octave: int)
    requires
        0 <= index < NOTE_COUNT,
    ensures
        octave_of(semitone_offset(index, octave)) == octave,
        pitch_class_of(semitone_offset(index, octave)) == (index + 3) % 12,
{
}

/// The name at place `index` of the chromatic sequence.
pub fn note_name(index: usize) -> (name: &'static str)
    requires
        index < NOTE_COUNT,
    ensures
        name@ == note_names()[index as int],
{
    proof {
        reveal_strlit("A");
        reveal_strlit("A#");
        reveal_strlit("B");
        reveal_strlit("C");
        reveal_strlit("C#");
        reveal_strlit("D");
        reveal_strlit("D#");
        reveal_strlit("E");
        reveal_strlit("F");
        reveal_strlit("F#");
        reveal_strlit("G");
        reveal_strlit("G#");
    }
    let name = match index {
        0 => "A",
        1 => "A#",
        2 => "B",
        3 => "C",
        4 => "C#",
        5 => "D",
        6 => "D#",
        7 => "E",
        8 => "F",
        9 => "F#",
        10 => "G",
        _ => "G#",
    };
    assert(name@ =~= note_names()[index as int]);
    name
}

/// Whether two strings hold the same characters.
fn same_text(a: &str, b: &str) -> (same: bool)
    ensures
        same == (a@ == b@),
{
    let n: usize = a.unicode_len();
    if n != b.unicode_len() {
        return false;
    }
    let mut i: usize = 0;
    while i < n
        invariant
            n == a@.len(),
            n == b@.len(),
            i <= n,
            forall|j: int| 0 <= j < i ==> a@[j] == b@[j],
        decreases n - i,
    {
        if a.get_char(i) != b.get_char(i) {
            return false;
        }
        i = i + 1;
    }
    assert(a@ =~= b@);
    true
}

/// Looks a name up in the chromatic sequence. A name that is not in it gets
/// place 0, so that every name has a place.
pub fn note_index(name: &str) -> (index: usize)
    ensures
        index == name_index(name@),
        index < NOTE_COUNT,
{
    let mut i: usize = 0;
    while i < NOTE_COUNT
        invariant
            i <= NOTE_COUNT,
            forall|j: int| 0 <= j < i ==> note_names()[j] != name@,
        decreases NOTE_COUNT - i,
    {
        if same_text(name, note_name(i)) {
            proof {
                lemma_name_index_of_name(i as int);
            }
            return i;
        }
        i = i + 1;
    }
    0
}

/// Semitones from A4 up to the note at place `index` in octave `octave`.
pub fn semitones_from_a4(index: usize, octave: i32) -> (semitones: i64)
    requires
        index < NOTE_COUNT,
    ensures
        semitones == semitone_offset(index as int, octave as int),
{
    (octave as i64 - 4) * 12 + (index as i64 - 9)
}

/// Semitones from A4 up to the named note in octave `octave`. A name that
/// is not in the chromatic sequence counts as the first of it.
pub fn note_name_to_semitones(note_name: &str, octave: i32) -> (semitones: i64)
    ensures
        semitones == semitone_offset(name_index(note_name@), octave as int),
{
    semitones_from_a4(note_index(note_name), octave)
}

/// The place in the chromatic sequence and the octave of the note that lies
/// `semitones` above A4 (below, for a negative count).
pub fn semitones_to_place(semitones: i32) -> (place: (usize, i32))
    ensures
        place.0 == pitch_class_of(semitones as int),
        place.1 == octave_of(semitones as int),
        place.0 < NOTE_COUNT,
{
    let wide: i64 = semitones as i64;
    let steps: i64 = (wide + 9).checked_div_euclid(12).unwrap();
    let class: i64 = wide.checked_rem_euclid(12).unwrap();
    (class as usize, (4 + steps) as i32)
}

/// The name and the octave of the note that lies `semitones` above A4.
pub fn semitones_to_note(semitones: i32) -> (note: (String, i32))
    ensures
        note.0@ == note_names()[pitch_class_of(semitones as int)],
        note.1 == octave_of(semitones as int),
{
    let place = semitones_to_place(semitones);
    (note_name(place.0).to_owned(), place.1)
}

} // verus!
