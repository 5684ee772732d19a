# fm_synth

Control logic of a two-operator FM synthesizer played from the computer
keyboard, verified with Verus.

- `src/notes.rs`: note letters and the note number of a letter in an octave.
- `src/keys.rs`: the window's key codes and the keys the musical keyboard reads.
- `src/keyboard.rs`: the musical keyboard (base octave, held keys), over the
  `musical_keyboard` crate.
- `src/queues.rs`: the lock-free queues (`ringbuf`) to the audio thread.
- `src/envelope.rs`: the note on/off switch sent to both operators' envelopes.
- `src/events.rs`: what a key press and a key release do.
- `src/filter.rs`: the filter-type menu.
- `app/`: the nannou window, UI and audio stream, and the floating-point
  pitch arithmetic.
