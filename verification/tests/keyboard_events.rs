use fm_synth::events::{key_released, pressed_note};
use fm_synth::envelope::{note_state_after, start_note, switch_envelopes};
use fm_synth::keyboard::Keyboard;
use fm_synth::keys::{Key, KeyboardKey};
use fm_synth::notes::Letter;
use ringbuf::{Consumer, Producer, RingBuffer};

fn queue(capacity: usize) -> (Producer<bool>, Consumer<bool>) {
    RingBuffer::<bool>::new(capacity).split()
}

fn drain(consumer: &mut Consumer<bool>) -> Vec<bool> {
    let mut out = Vec::new();
    while let Some(v) = consumer.pop() {
        out.push(v);
    }
    out
}

#[test]
fn new_keyboard_plays_a_as_c_of_octave_two() {
    let mut kb = Keyboard::new();
    assert_eq!(kb.key_pressed(KeyboardKey::A), Some((Letter::C, 2)));
    assert_eq!(kb.key_pressed(KeyboardKey::Quote), Some((Letter::F, 3)));
}

#[test]
fn pressed_note_gives_the_note_number() {
    let mut kb = Keyboard::new();
    assert_eq!(pressed_note(&mut kb, Key::A), Some(28));
    assert_eq!(pressed_note(&mut kb, Key::H), Some(37));
    assert_eq!(pressed_note(&mut kb, Key::K), Some(40));
}

#[test]
fn held_key_repeat_plays_nothing_until_released() {
    let mut kb = Keyboard::new();
    let (mut m, _mc) = queue(8);
    let (mut c, _cc) = queue(8);
    let mut on = false;
    assert_eq!(pressed_note(&mut kb, Key::A), Some(28));
    assert_eq!(pressed_note(&mut kb, Key::A), None);
    key_released(&mut kb, Key::A, &mut m, &mut c, &mut on);
    assert_eq!(pressed_note(&mut kb, Key::A), Some(28));
}

#[test]
fn octave_keys_step_and_stop_at_the_limits() {
    let mut kb = Keyboard::new();
    assert_eq!(pressed_note(&mut kb, Key::X), None);
    assert_eq!(pressed_note(&mut kb, Key::K), Some(52));
    for _ in 0..20 {
        assert_eq!(pressed_note(&mut kb, Key::Z), None);
    }
    assert_eq!(pressed_note(&mut kb, Key::A), Some(-20));
    for _ in 0..20 {
        assert_eq!(pressed_note(&mut kb, Key::X), None);
    }
    assert_eq!(pressed_note(&mut kb, Key::S), Some(12 * 12 + 3 + 3));
}

#[test]
fn velocity_and_foreign_keys_play_nothing() {
    let mut kb = Keyboard::new();
    assert_eq!(pressed_note(&mut kb, Key::C), None);
    assert_eq!(pressed_note(&mut kb, Key::V), None);
    assert_eq!(pressed_note(&mut kb, Key::Q), None);
    assert_eq!(pressed_note(&mut kb, Key::A), Some(28));
}

#[test]
fn envelope_request_taken_by_both_queues() {
    let (mut m, mut mc) = queue(4);
    let (mut c, mut cc) = queue(4);
    let mut on = false;
    assert!(switch_envelopes(&mut m, &mut c, true, &mut on));
    assert!(on);
    assert_eq!(drain(&mut mc), vec![true]);
    assert_eq!(drain(&mut cc), vec![true]);
}

#[test]
fn envelope_request_refused_by_the_modulator_reaches_no_queue() {
    let (mut m, mut mc) = queue(0);
    let (mut c, mut cc) = queue(4);
    let mut on = false;
    assert!(!switch_envelopes(&mut m, &mut c, true, &mut on));
    assert!(!on);
    assert!(drain(&mut mc).is_empty());
    assert!(drain(&mut cc).is_empty());
}

#[test]
fn envelope_request_refused_by_the_carrier_keeps_the_state() {
    let (mut m, mut mc) = queue(4);
    let (mut c, mut cc) = queue(0);
    let mut on = true;
    assert!(!switch_envelopes(&mut m, &mut c, false, &mut on));
    assert!(on);
    assert_eq!(drain(&mut mc), vec![false]);
    assert!(drain(&mut cc).is_empty());
}

#[test]
fn start_note_sends_nothing_while_a_note_sounds() {
    let (mut m, mut mc) = queue(4);
    let (mut c, mut cc) = queue(4);
    let mut on = true;
    assert!(!start_note(&mut m, &mut c, &mut on));
    assert!(on);
    assert!(drain(&mut mc).is_empty());
    assert!(drain(&mut cc).is_empty());
    on = false;
    assert!(start_note(&mut m, &mut c, &mut on));
    assert!(on);
    assert_eq!(drain(&mut mc), vec![true]);
    assert_eq!(drain(&mut cc), vec![true]);
}

#[test]
fn key_release_switches_the_envelopes_off() {
    let mut kb = Keyboard::new();
    let (mut m, mut mc) = queue(4);
    let (mut c, mut cc) = queue(4);
    let mut on = false;
    assert_eq!(pressed_note(&mut kb, Key::D), Some(32));
    assert!(start_note(&mut m, &mut c, &mut on));
    key_released(&mut kb, Key::D, &mut m, &mut c, &mut on);
    assert!(!on);
    assert_eq!(drain(&mut mc), vec![true, false]);
    assert_eq!(drain(&mut cc), vec![true, false]);
}

#[test]
fn releasing_an_octave_key_also_switches_the_envelopes_off() {
    let mut kb = Keyboard::new();
    let (mut m, mut mc) = queue(4);
    let (mut c, mut cc) = queue(4);
    let mut on = true;
    key_released(&mut kb, Key::Z, &mut m, &mut c, &mut on);
    assert!(!on);
    assert_eq!(drain(&mut mc), vec![false]);
    assert_eq!(drain(&mut cc), vec![false]);
}

#[test]
fn releasing_a_foreign_key_changes_nothing() {
    let mut kb = Keyboard::new();
    let (mut m, mut mc) = queue(4);
    let (mut c, mut cc) = queue(4);
    let mut on = true;
    key_released(&mut kb, Key::Q, &mut m, &mut c, &mut on);
    assert!(on);
    assert!(drain(&mut mc).is_empty());
    assert!(drain(&mut cc).is_empty());
}

#[test]
fn note_state_follows_the_request_only_when_both_queues_took_it() {
    assert!(note_state_after(false, true, true, true));
    assert!(!note_state_after(false, true, true, false));
    assert!(!note_state_after(false, true, false, false));
    assert!(note_state_after(true, false, false, true));
    assert!(!note_state_after(true, false, true, true));
}
