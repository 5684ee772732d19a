use vstd::prelude::*;
use musical_keyboard::Key as K;
use musical_keyboard::MusicalKeyboard;
use crate::keys::KeyboardKey;
use crate::notes::{note_number, semitone, Letter};

verus! {

#[verifier::external_type_specification]
#[verifier::external_body]
pub struct ExMusicalKeyboard(MusicalKeyboard);

/// The base octave that a `musical_keyboard::MusicalKeyboard` plays in (its
/// `octave` field).
pub uninterp spec fn keyboard_octave(kb: MusicalKeyboard) -> int;

/// The note keys that a `musical_keyboard::MusicalKeyboard` holds as pressed
/// (the keys of its `currently_pressed_keys` map).
pub uninterp spec fn keyboard_held(kb: MusicalKeyboard) -> Set<KeyboardKey>;

/// The note that a note key plays: its letter, and the octave it lies above
/// the keyboard's base octave. `A` is the piano's C; the keys run up the
/// chromatic scale to `'`, an octave and a fourth above.
pub open spec fn note_of(key: KeyboardKey) -> Option<(Letter, int)> {
    match key {
        KeyboardKey::A => Some((Letter::C, 0)),
        KeyboardKey::W => Some((Letter::Csh, 0)),
        KeyboardKey::S => Some((Letter::D, 0)),
        KeyboardKey::E => Some((Letter::Dsh, 0)),
        KeyboardKey::D => Some((Letter::E, 0)),
        KeyboardKey::F => Some((Letter::F, 0)),
        KeyboardKey::T => Some((Letter::Fsh, 0)),
        KeyboardKey::G => Some((Letter::G, 0)),
        KeyboardKey::Y => Some((Letter::Gsh, 0)),
        KeyboardKey::H => Some((Letter::A, 0)),
        KeyboardKey::U => Some((Letter::Ash, 0)),
        KeyboardKey::J => Some((Letter::B, 0)),
        KeyboardKey::K => Some((Letter::C, 1)),
        KeyboardKey::O => Some((Letter::Csh, 1)),
        KeyboardKey::L => Some((Letter::D, 1)),
        KeyboardKey::P => Some((Letter::Dsh, 1)),
        KeyboardKey::Semicolon => Some((Letter::E, 1)),
        KeyboardKey::Quote => Some((Letter::F, 1)),
        _ => None,
    }
}

/// The base octave after pressing `key` in `octave`: `Z` steps down to no
/// lower than -2, `X` steps up to no higher than 12, other keys keep it.
pub open spec fn stepped_octave(key: KeyboardKey, octave: int) -> int {
    match key {
        KeyboardKey::Z => if octave > -2 { octave - 1 } else { octave },
        KeyboardKey::X => if octave < 12 { octave + 1 } else { octave },
        _ => octave,
    }
}

/// The position of a letter in the declaration order of the letters, C first.
pub open spec fn letter_index(letter: Letter) -> int {
    match letter {
        Letter::C => 0,
        Letter::Csh => 1,
        Letter::Db => 2,
        Letter::D => 3,
        Letter::Dsh => 4,
        Letter::Eb => 5,
        Letter::E => 6,
        Letter::F => 7,
        Letter::Fsh => 8,
        Letter::Gb => 9,
        Letter::G => 10,
        Letter::Gsh => 11,
        Letter::Ab => 12,
        Letter::A => 13,
        Letter::Ash => 14,
        Letter::Bb => 15,
        Letter::B => 16,
    }
}

/// The position of a note key on the keyboard, counting up from `A`.
pub open spec fn note_key_position(key: KeyboardKey) -> int {
    match key {
        KeyboardKey::A => 0,
        KeyboardKey::W => 1,
        KeyboardKey::S => 2,
        KeyboardKey::E => 3,
        KeyboardKey::D => 4,
        KeyboardKey::F => 5,
        KeyboardKey::T => 6,
        KeyboardKey::G => 7,
        KeyboardKey::Y => 8,
        KeyboardKey::H => 9,
        KeyboardKey::U => 10,
        KeyboardKey::J => 11,
        KeyboardKey::K => 12,
        KeyboardKey::O => 13,
        KeyboardKey::L => 14,
        KeyboardKey::P => 15,
        KeyboardKey::Semicolon => 16,
        KeyboardKey::Quote => 17,
        _ => -1,
    }
}

/// The note keys lie a semitone apart, like a piano's keys: the key at
/// position `p` plays note number `12 * octave + 4 + p`, `A` playing the C of
/// the base octave.
pub proof fn lemma_note_keys_are_chromatic(key: KeyboardKey, octave: int)
    requires
        note_of(key) is Some,
    ensures
        note_of(key) matches Some((letter, above)) && note_number(letter, octave + above) == 12
            * octave + 4 + note_key_position(key),
        0 <= note_key_position(key) < 18,
{
}

/// Within the octave range, `X` undoes `Z` and `Z` undoes `X`, and neither
/// leaves the range.
pub proof fn lemma_octave_steps_undo(octave: int)
    requires
        -2 <= octave <= 12,
    ensures
        -2 <= stepped_octave(KeyboardKey::Z, octave) <= 12,
        -2 <= stepped_octave(KeyboardKey::X, octave) <= 12,
        octave > -2 ==> stepped_octave(KeyboardKey::X, stepped_octave(KeyboardKey::Z, octave))
            == octave,
        octave < 12 ==> stepped_octave(KeyboardKey::Z, stepped_octave(KeyboardKey::X, octave))
            == octave,
{
}

/// Letter positions follow pitch: no two letters share a position, the
/// positions run from 0 to 16, a letter at a lower position never sounds
/// higher, and of two spellings of one pitch the sharp comes first.
pub proof fn lemma_letter_index_follows_pitch(a: Letter, b: Letter)
    ensures
        0 <= letter_index(a) < 17,
        letter_index(a) == letter_index(b) ==> a == b,
        letter_index(a) < letter_index(b) ==> semitone(a) <= semitone(b),
        letter_index(Letter::Csh) < letter_index(Letter::Db),
        letter_index(Letter::Dsh) < letter_index(Letter::Eb),
        letter_index(Letter::Fsh) < letter_index(Letter::Gb),
        letter_index(Letter::Gsh) < letter_index(Letter::Ab),
        letter_index(Letter::Ash) < letter_index(Letter::Bb),
{
}

/// Calls `MusicalKeyboard::default`, which starts in octave 2 with no key held.
#[verifier::external_body]
fn new_musical_keyboard() -> (kb: MusicalKeyboard)
    ensures
        keyboard_octave(kb) == 2,
        keyboard_held(kb) == Set::<KeyboardKey>::empty(),
{
    MusicalKeyboard::default()
}

/// Calls `MusicalKeyboard::key_pressed` and hands back the letter (by its
/// position, see `letter_index`) and octave of the note it starts. As its
/// source shows: a note key not yet held starts its note in the base octave
/// plus the key's own octave and becomes held; a note key already held starts
/// nothing; `Z` and `X` step the base octave within -2 to 12; `C` and `V` step
/// the velocity, which is not stated here.
#[verifier::external_body]
fn press_musical_keyboard(kb: &mut MusicalKeyboard, key: KeyboardKey) -> (note: Option<(u8, i32)>)
    requires
        keyboard_octave(*old(kb)) < i32::MAX,
    ensures
        keyboard_octave(*final(kb)) == stepped_octave(key, keyboard_octave(*old(kb))),
        note_of(key) is Some ==> keyboard_held(*final(kb)) == keyboard_held(*old(kb)).insert(key),
        note_of(key) is None ==> keyboard_held(*final(kb)) == keyboard_held(*old(kb)),
        note == (match note_of(key) {
            Some((letter, above)) => if keyboard_held(*old(kb)).contains(key) {
                None
            } else {
                Some((letter_index(letter) as u8, (keyboard_octave(*old(kb)) + above) as i32))
            },
            None => None,
        }),
{
    let k = match key as u8 {
        0 => K::A, 1 => K::W, 2 => K::S, 3 => K::E, 4 => K::D, 5 => K::F, 6 => K::T,
        7 => K::G, 8 => K::Y, 9 => K::H, 10 => K::U, 11 => K::J, 12 => K::K, 13 => K::O,
        14 => K::L, 15 => K::P, 16 => K::Semicolon, 17 => K::Quote, 18 => K::Z, 19 => K::X,
        20 => K::C, _ => K::V,
    };
    kb.key_pressed(k).map(|n| (n.letter as u8, n.octave))
}

/// Calls `MusicalKeyboard::key_released`, dropping the note-off it returns. As
/// its source shows, a note key stops being held; the base octave stays.
#[verifier::external_body]
fn release_musical_keyboard(kb: &mut MusicalKeyboard, key: KeyboardKey)
    requires
        keyboard_octave(*old(kb)) < i32::MAX,
    ensures
        keyboard_octave(*final(kb)) == keyboard_octave(*old(kb)),
        keyboard_held(*final(kb)) == (if note_of(key) is Some {
            keyboard_held(*old(kb)).remove(key)
        } else {
            keyboard_held(*old(kb))
        }),
{
    let k = match key as u8 {
        0 => K::A, 1 => K::W, 2 => K::S, 3 => K::E, 4 => K::D, 5 => K::F, 6 => K::T,
        7 => K::G, 8 => K::Y, 9 => K::H, 10 => K::U, 11 => K::J, 12 => K::K, 13 => K::O,
        14 => K::L, 15 => K::P, 16 => K::Semicolon, 17 => K::Quote, 18 => K::Z, 19 => K::X,
        20 => K::C, _ => K::V,
    };
    kb.key_released(k);
}

/// The letter at a position of the declaration order.
fn letter_at(index: u8) -> (letter: Letter)
    requires
        index < 17,
    ensures
        letter_index(letter) == index,
{
    match index {
        0 => Letter::C,
        1 => Letter::Csh,
        2 => Letter::Db,
        3 => Letter::D,
        4 => Letter::Dsh,
        5 => Letter::Eb,
        6 => Letter::E,
        7 => Letter::F,
        8 => Letter::Fsh,
        9 => Letter::Gb,
        10 => Letter::G,
        11 => Letter::Gsh,
        12 => Letter::Ab,
        13 => Letter::A,
        14 => Letter::Ash,
        15 => Letter::Bb,
        _ => Letter::B,
    }
}

/// A musical keyboard played from the computer keyboard: it turns note keys
/// into notes, remembers which note keys are held, and keeps a base octave
/// that `Z` and `X` step between -2 and 12.
pub struct Keyboard {
    inner: MusicalKeyboard,
}

impl Keyboard {
    #[verifier::type_invariant]
    pub(crate) open spec fn octave_in_range(self) -> bool {
        -2 <= self.octave() <= 12
    }

    /// The base octave.
    pub closed spec fn octave(self) -> int {
        keyboard_octave(self.inner)
    }

    /// The note keys held down.
    pub closed spec fn held(self) -> Set<KeyboardKey> {
        keyboard_held(self.inner)
    }

    /// A keyboard in octave 2 with no key held.
    pub fn new() -> (kb: Keyboard)
        ensures
            kb.octave() == 2,
            kb.held() == Set::<KeyboardKey>::empty(),
    {
        Keyboard { inner: new_musical_keyboard() }
    }

    /// Presses `key`: a note key that is not already held starts its note,
    /// given as its letter and octave, and becomes held; a held note key
    /// starts nothing (a key repeat); `Z` and `X` step the base octave.
    pub fn key_pressed(&mut self, key: KeyboardKey) -> (note: Option<(Letter, i32)>)
        ensures
            -2 <= final(self).octave() <= 12,
            final(self).octave() == stepped_octave(key, old(self).octave()),
            note_of(key) is Some ==> final(self).held() == old(self).held().insert(key),
            note_of(key) is None ==> final(self).held() == old(self).held(),
            note == (match note_of(key) {
                Some((letter, above)) => if old(self).held().contains(key) {
                    None
                } else {
                    Some((letter, (old(self).octave() + above) as i32))
                },
                None => None,
            }),
            note matches Some((letter, octave)) ==> semitone(letter) == note_key_position(key) % 12 + 1
                && octave == old(self).octave() + note_key_position(key) / 12,
    {
        proof {
            use_type_invariant(&*self);
            if note_of(key) is Some {
                lemma_note_keys_are_chromatic(key, 0);
            }
        }
        let mut inner = new_musical_keyboard();
        std::mem::swap(&mut inner, &mut self.inner);
        let played = press_musical_keyboard(&mut inner, key);
        self.inner = inner;
        match played {
            Some((index, octave)) => Some((letter_at(index), octave)),
            None => None,
        }
    }

    /// Releases `key`: a note key stops being held; the base octave stays.
    pub fn key_released(&mut self, key: KeyboardKey)
        ensures
            -2 <= final(self).octave() <= 12,
            final(self).octave() == old(self).octave(),
            final(self).held() == (if note_of(key) is Some {
                old(self).held().remove(key)
            } else {
                old(self).held()
            }),
    {
        proof {
            use_type_invariant(&*self);
        }
        let mut inner = new_musical_keyboard();
        std::mem::swap(&mut inner, &mut self.inner);
        release_musical_keyboard(&mut inner, key);
        self.inner = inner;
    }
}

} // verus!
