use vstd::prelude::*;
use ringbuf::Producer;
use crate::envelope::switch_envelopes;
use crate::keyboard::{lemma_note_keys_are_chromatic, note_key_position, note_of, stepped_octave, Keyboard};
use crate::keys::{convert_key, keyboard_key_of, Key, KeyboardKey};
use crate::notes::{convert_key_note_number, note_number};
use crate::queues::switches_sent;

verus! {

/// The note number that pressing the computer key `key` starts on a keyboard
/// in base octave `octave` holding the note keys `held`: none for keys that
/// are no note keys and for note keys already held.
pub open spec fn pressed_note_number(key: Key, octave: int, held: Set<KeyboardKey>) -> Option<int> {
    match keyboard_key_of(key) {
        Some(k) => match note_of(k) {
            Some((letter, above)) => if held.contains(k) {
                None
            } else {
                Some(note_number(letter, octave + above))
            },
            None => None,
        },
        None => None,
    }
}

/// Handles a key press on the musical keyboard: finds the keyboard key that
/// the computer key stands for, presses it, and gives the note number of the
/// note it starts, if any. Keys that stand for no keyboard key change nothing.
pub fn pressed_note(keyboard: &mut Keyboard, key: Key) -> (n: Option<i32>)
    ensures
        -2 <= final(keyboard).octave() <= 12,
        n == (match pressed_note_number(key, old(keyboard).octave(), old(keyboard).held()) {
            Some(m) => Some(m as i32),
            None => None,
        }),
        keyboard_key_of(key) matches Some(k) ==> (note_of(k) is Some && !old(keyboard).held().contains(
            k,
        ) ==> n == Some((12 * old(keyboard).octave() + 4 + note_key_position(k)) as i32)),
        keyboard_key_of(key) is None ==> final(keyboard).octave() == old(keyboard).octave()
            && final(keyboard).held() == old(keyboard).held(),
        keyboard_key_of(key) matches Some(k) ==> final(keyboard).octave() == stepped_octave(
            k,
            old(keyboard).octave(),
        ),
        keyboard_key_of(key) matches Some(k) ==> final(keyboard).held() == (if note_of(k) is Some {
            old(keyboard).held().insert(k)
        } else {
            old(keyboard).held()
        }),
{
    proof {
        use_type_invariant(&*keyboard);
        lemma_pressed_note_is_chromatic(key, keyboard.octave(), keyboard.held());
    }
    match convert_key(key) {
        Some(k) => match keyboard.key_pressed(k) {
            Some((letter, octave)) => Some(convert_key_note_number(letter, octave)),
            None => None,
        },
        None => None,
    }
}

/// Handles a key release: for a computer key that stands for a keyboard key,
/// releases it on the keyboard and requests the envelopes off (see
/// `switch_envelopes`), whichever keyboard key it was. Other keys change nothing.
pub fn key_released(
    keyboard: &mut Keyboard,
    key: Key,
    modulator: &mut Producer<bool>,
    carrier: &mut Producer<bool>,
    note_on_off: &mut bool,
)
    ensures
        -2 <= final(keyboard).octave() <= 12,
        final(keyboard).octave() == old(keyboard).octave(),
        keyboard_key_of(key) is None ==> final(keyboard).held() == old(keyboard).held()
            && *final(note_on_off) == *old(note_on_off)
            && switches_sent(*final(modulator)) == switches_sent(*old(modulator))
            && switches_sent(*final(carrier)) == switches_sent(*old(carrier)),
        keyboard_key_of(key) matches Some(k) ==> final(keyboard).held() == (if note_of(k) is Some {
            old(keyboard).held().remove(k)
        } else {
            old(keyboard).held()
        }),
        keyboard_key_of(key) is Some ==> {
            ||| !*final(note_on_off)
                && switches_sent(*final(modulator)) == switches_sent(*old(modulator)).push(false)
                && switches_sent(*final(carrier)) == switches_sent(*old(carrier)).push(false)
            ||| *final(note_on_off) == *old(note_on_off)
                && switches_sent(*final(modulator)) == switches_sent(*old(modulator))
                && switches_sent(*final(carrier)) == switches_sent(*old(carrier))
            ||| *final(note_on_off) == *old(note_on_off)
                && switches_sent(*final(modulator)) == switches_sent(*old(modulator)).push(false)
                && switches_sent(*final(carrier)) == switches_sent(*old(carrier))
        },
{
    proof {
        use_type_invariant(&*keyboard);
    }
    if let Some(k) = convert_key(key) {
        keyboard.key_released(k);
        switch_envelopes(modulator, carrier, false, note_on_off);
    }
}

/// Pressing the computer key of a note key that is not held, on a keyboard in
/// base octave `octave`, plays note number `12 * octave + 4 + p`, where `p` is
/// the note key's position counted up from `A`: the note keys sound a
/// semitone apart, `A` being the C of the base octave.
pub proof fn lemma_pressed_note_is_chromatic(key: Key, octave: int, held: Set<KeyboardKey>)
    ensures
        keyboard_key_of(key) matches Some(k) ==> (note_of(k) is Some && !held.contains(k)
            ==> pressed_note_number(key, octave, held) == Some(12 * octave + 4 + note_key_position(k))),
{
    if let Some(k) = keyboard_key_of(key) {
        if note_of(k) is Some {
            lemma_note_keys_are_chromatic(k, octave);
        }
    }
}

/// Of two note keys not held, the one further from `A` plays the higher note:
/// each note key plays one semitone above the one before it, and the keys
/// past `J` play above every key of the base octave.
pub proof fn lemma_pressed_notes_rise_with_position(
    low: Key,
    high: Key,
    octave: int,
    held: Set<KeyboardKey>,
)
    requires
        keyboard_key_of(low) matches Some(k) && note_of(k) is Some && !held.contains(k),
        keyboard_key_of(high) matches Some(k) && note_of(k) is Some && !held.contains(k),
        note_key_position(keyboard_key_of(low)->0) < note_key_position(keyboard_key_of(high)->0),
    ensures
        pressed_note_number(low, octave, held)->0 < pressed_note_number(high, octave, held)->0,
        pressed_note_number(high, octave, held)->0 - pressed_note_number(low, octave, held)->0
            == note_key_position(keyboard_key_of(high)->0) - note_key_position(keyboard_key_of(low)->0),
{
    lemma_pressed_note_is_chromatic(low, octave, held);
    lemma_pressed_note_is_chromatic(high, octave, held);
}

/// A note key that is held plays nothing when pressed again (a key repeat),
/// and plays its note again once released.
pub proof fn lemma_held_key_waits_for_release(
    key: Key,
    octave: int,
    held: Set<KeyboardKey>,
)
    requires
        keyboard_key_of(key) is Some,
        note_of(keyboard_key_of(key)->0) is Some,
    ensures
        pressed_note_number(key, octave, held.insert(keyboard_key_of(key)->0)) is None,
        pressed_note_number(key, octave, held.remove(keyboard_key_of(key)->0)) is Some,
{
}

} // verus!
