use vstd::prelude::*;

verus! {

/// A note letter, sharps and flats spelled apart, in the order of the
/// chromatic scale starting at C.
#[derive(Clone, Copy, Debug, PartialEq, Eq, Structural)]
pub enum Letter {
    C,
    Csh,
    Db,
    D,
    Dsh,
    Eb,
    E,
    F,
    Fsh,
    Gb,
    G,
    Gsh,
    Ab,
    A,
    Ash,
    Bb,
    B,
}

/// The position of a letter within its octave, counting C as 1 and B as 12;
/// a sharp and the flat of the next letter share a position.
pub open spec fn semitone(letter: Letter) -> int {
    match letter {
        Letter::C => 1,
        Letter::Csh => 2,
        Letter::Db => 2,
        Letter::D => 3,
        Letter::Dsh => 4,
        Letter::Eb => 4,
        Letter::E => 5,
        Letter::F => 6,
        Letter::Fsh => 7,
        Letter::Gb => 7,
        Letter::G => 8,
        Letter::Gsh => 9,
        Letter::Ab => 9,
        Letter::A => 10,
        Letter::Ash => 11,
        Letter::Bb => 11,
        Letter::B => 12,
    }
}

/// The note number of a letter in an octave: twelve per octave, plus the
/// letter's position, plus an offset of three.
pub open spec fn note_number(letter: Letter, octave: int) -> int {
    12 * octave + semitone(letter) + 3
}

/// Whether the note number of `letter` in `octave` can be computed in `i32`
/// arithmetic: twelve times the octave, and the note number itself, fit.
pub open spec fn note_number_fits(letter: Letter, octave: int) -> bool {
    &&& i32::MIN <= 12 * octave
    &&& note_number(letter, octave) <= i32::MAX
}

/// Converts a letter and an octave into the note number that the synth's
/// pitch formula takes.
pub fn convert_key_note_number(key: Letter, octave: i32) -> (n: i32)
    requires
        note_number_fits(key, octave as int),
    ensures
        n == note_number(key, octave as int),
{
    let n: i32 = match key {
        Letter::C => 1,
        Letter::Csh => 2,
        Letter::Db => 2,
        Letter::D => 3,
        Letter::Dsh => 4,
        Letter::Eb => 4,
        Letter::E => 5,
        Letter::F => 6,
        Letter::Fsh => 7,
        Letter::Gb => 7,
        Letter::G => 8,
        Letter::Gsh => 9,
        Letter::Ab => 9,
        Letter::A => 10,
        Letter::Ash => 11,
        Letter::Bb => 11,
        Letter::B => 12,
    };
    let offset: i32 = 3;
    (12 * octave) + n + offset
}

/// Raising the octave by one raises the note number by twelve.
pub proof fn lemma_octave_adds_twelve(letter: Letter, octave: int)
    ensures
        note_number(letter, octave + 1) == note_number(letter, octave) + 12,
{
}

/// A sharp and the flat of the next letter name the same note.
pub proof fn lemma_enharmonic_letters_agree(octave: int)
    ensures
        note_number(Letter::Csh, octave) == note_number(Letter::Db, octave),
        note_number(Letter::Dsh, octave) == note_number(Letter::Eb, octave),
        note_number(Letter::Fsh, octave) == note_number(Letter::Gb, octave),
        note_number(Letter::Gsh, octave) == note_number(Letter::Ab, octave),
        note_number(Letter::Ash, octave) == note_number(Letter::Bb, octave),
{
}

/// The notes of an octave lie between its C and its B, and every note of an
/// octave lies below every note of the octave above.
pub proof fn lemma_octaves_do_not_overlap(low: Letter, high: Letter, octave: int)
    ensures
        note_number(Letter::C, octave) <= note_number(low, octave) <= note_number(Letter::B, octave),
        note_number(Letter::C, octave) == 12 * octave + 4,
        note_number(Letter::B, octave) == 12 * octave + 15,
        note_number(low, octave) < note_number(high, octave + 1),
{
}

} // verus!
