use vstd::prelude::*;
use ringbuf::Producer;
use crate::queues::{switches_sent, push_switch};

verus! {

/// The note state after requesting `value` in state `current`, given whether
/// the modulator's queue took the value and whether the carrier's did: `value`
/// when both took it, `current` otherwise.
pub fn note_state_after(current: bool, value: bool, modulator_took: bool, carrier_took: bool) -> (state: bool)
    ensures
        state == (if modulator_took && carrier_took { value } else { current }),
{
    if modulator_took && carrier_took {
        value
    } else {
        current
    }
}

/// Requests the envelope switch `value` (on or off) of both operators:
/// sends it to the modulator's queue and, only if that queue took it, to the
/// carrier's. The note state becomes `value` only if both queues took it;
/// otherwise it stays. Answers whether both took it.
pub fn switch_envelopes(
    modulator: &mut Producer<bool>,
    carrier: &mut Producer<bool>,
    value: bool,
    note_on_off: &mut bool,
) -> (accepted: bool)
    ensures
        *final(note_on_off) == (if accepted { value } else { *old(note_on_off) }),
        accepted ==> switches_sent(*final(modulator)) == switches_sent(*old(modulator)).push(value),
        accepted ==> switches_sent(*final(carrier)) == switches_sent(*old(carrier)).push(value),
        !accepted ==> switches_sent(*final(carrier)) == switches_sent(*old(carrier)),
        !accepted ==> (switches_sent(*final(modulator)) == switches_sent(*old(modulator))
            || switches_sent(*final(modulator)) == switches_sent(*old(modulator)).push(value)),
        // the carrier is only asked once the modulator took the value
        switches_sent(*final(carrier)) != switches_sent(*old(carrier)) ==> switches_sent(*final(modulator))
            == switches_sent(*old(modulator)).push(value),
{
    let modulator_took = push_switch(modulator, value).is_ok();
    let carrier_took = modulator_took && push_switch(carrier, value).is_ok();
    *note_on_off = note_state_after(*note_on_off, value, modulator_took, carrier_took);
    modulator_took && carrier_took
}

/// Switches the envelopes on after a note key: when no note is sounding, requests
/// the envelopes on (see `switch_envelopes`); when one is, sends nothing. Answers
/// whether they were switched on.
pub fn start_note(
    modulator: &mut Producer<bool>,
    carrier: &mut Producer<bool>,
    note_on_off: &mut bool,
) -> (started: bool)
    ensures
        *old(note_on_off) ==> !started && *final(note_on_off)
            && switches_sent(*final(modulator)) == switches_sent(*old(modulator))
            && switches_sent(*final(carrier)) == switches_sent(*old(carrier)),
        !*old(note_on_off) ==> *final(note_on_off) == started,
        started ==> switches_sent(*final(modulator)) == switches_sent(*old(modulator)).push(true)
            && switches_sent(*final(carrier)) == switches_sent(*old(carrier)).push(true),
        !started ==> switches_sent(*final(carrier)) == switches_sent(*old(carrier)),
        !started && !*old(note_on_off) ==> (switches_sent(*final(modulator)) == switches_sent(*old(modulator))
            || switches_sent(*final(modulator)) == switches_sent(*old(modulator)).push(true)),
{
    if !*note_on_off {
        switch_envelopes(modulator, carrier, true, note_on_off)
    } else {
        false
    }
}

} // verus!
