//! Verified control logic of a two-operator FM synthesizer played from the
//! computer keyboard: which computer keys play which notes, the note numbers
//! they stand for, the note on/off switch sent to both envelopes, and the filter-type
//! selection sent to the audio thread.

pub mod notes;
pub mod keys;
pub mod keyboard;
pub mod queues;
pub mod filter;
pub mod envelope;
pub mod events;
