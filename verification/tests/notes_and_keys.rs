use fm_synth::keys::{convert_key, Key, KeyboardKey};
use fm_synth::notes::{convert_key_note_number, Letter};

#[test]
fn note_number_of_c_in_octave_zero() {
    assert_eq!(convert_key_note_number(Letter::C, 0), 4);
}

#[test]
fn note_number_of_a_in_octave_four() {
    assert_eq!(convert_key_note_number(Letter::A, 4), 61);
}

#[test]
fn note_number_in_negative_octave() {
    assert_eq!(convert_key_note_number(Letter::B, -1), 3);
    assert_eq!(convert_key_note_number(Letter::C, -2), -20);
}

#[test]
fn note_number_rises_twelve_per_octave() {
    let letters = [
        Letter::C, Letter::Csh, Letter::Db, Letter::D, Letter::Dsh, Letter::Eb, Letter::E,
        Letter::F, Letter::Fsh, Letter::Gb, Letter::G, Letter::Gsh, Letter::Ab, Letter::A,
        Letter::Ash, Letter::Bb, Letter::B,
    ];
    for letter in letters {
        for octave in -3..14 {
            assert_eq!(
                convert_key_note_number(letter, octave + 1),
                convert_key_note_number(letter, octave) + 12
            );
        }
    }
}

#[test]
fn enharmonic_letters_share_a_note_number() {
    for octave in [-2, 0, 3, 12] {
        assert_eq!(convert_key_note_number(Letter::Csh, octave), convert_key_note_number(Letter::Db, octave));
        assert_eq!(convert_key_note_number(Letter::Dsh, octave), convert_key_note_number(Letter::Eb, octave));
        assert_eq!(convert_key_note_number(Letter::Fsh, octave), convert_key_note_number(Letter::Gb, octave));
        assert_eq!(convert_key_note_number(Letter::Gsh, octave), convert_key_note_number(Letter::Ab, octave));
        assert_eq!(convert_key_note_number(Letter::Ash, octave), convert_key_note_number(Letter::Bb, octave));
    }
}

#[test]
fn letters_climb_one_semitone_at_a_time() {
    let scale = [
        Letter::C, Letter::Csh, Letter::D, Letter::Dsh, Letter::E, Letter::F, Letter::Fsh,
        Letter::G, Letter::Gsh, Letter::A, Letter::Ash, Letter::B,
    ];
    for (i, letter) in scale.iter().enumerate() {
        assert_eq!(convert_key_note_number(*letter, 2), 24 + 4 + i as i32);
    }
}

#[test]
fn note_number_at_the_edge_of_i32() {
    // 12 * 178956970 + 12 + 3 == 2147483655 would overflow; one octave lower fits.
    assert_eq!(convert_key_note_number(Letter::B, 178956969), 2147483643);
}

#[test]
fn note_keys_map_to_keyboard_keys() {
    let pairs = [
        (Key::A, KeyboardKey::A),
        (Key::W, KeyboardKey::W),
        (Key::S, KeyboardKey::S),
        (Key::E, KeyboardKey::E),
        (Key::D, KeyboardKey::D),
        (Key::F, KeyboardKey::F),
        (Key::T, KeyboardKey::T),
        (Key::G, KeyboardKey::G),
        (Key::Y, KeyboardKey::Y),
        (Key::H, KeyboardKey::H),
        (Key::U, KeyboardKey::U),
        (Key::J, KeyboardKey::J),
        (Key::K, KeyboardKey::K),
        (Key::O, KeyboardKey::O),
        (Key::L, KeyboardKey::L),
        (Key::P, KeyboardKey::P),
        (Key::Semicolon, KeyboardKey::Semicolon),
        (Key::Apostrophe, KeyboardKey::Quote),
        (Key::Z, KeyboardKey::Z),
        (Key::X, KeyboardKey::X),
        (Key::C, KeyboardKey::C),
        (Key::V, KeyboardKey::V),
    ];
    for (key, expected) in pairs {
        assert_eq!(convert_key(key), Some(expected));
    }
}

#[test]
fn other_keys_map_to_nothing() {
    for key in [Key::Q, Key::B, Key::Key1, Key::Escape, Key::Space, Key::Return, Key::Colon, Key::Grave, Key::Numpad0] {
        assert_eq!(convert_key(key), None);
    }
}
