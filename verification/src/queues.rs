use vstd::prelude::*;
use ringbuf::Producer;
use crate::filter::FilterType;

verus! {

#[verifier::external_type_specification]
#[verifier::external_body]
#[verifier::reject_recursive_types(T)]
pub struct ExProducer<T>(Producer<T>);

/// The envelope switch values that a `ringbuf::Producer<bool>` has enqueued so far,
/// oldest first. The audio thread takes them out at the other end.
pub uninterp spec fn switches_sent(producer: Producer<bool>) -> Seq<bool>;

/// The filter types that a `ringbuf::Producer<FilterType>` has enqueued so far,
/// oldest first. The audio thread takes them out at the other end.
pub uninterp spec fn filter_types_sent(producer: Producer<FilterType>) -> Seq<FilterType>;

/// Calls `ringbuf::Producer::push` on a queue of envelope switch values. As its source
/// shows, a push that finds room enqueues the value behind those sent before
/// and answers `Ok`; one that finds the queue full enqueues nothing and hands
/// the value back in `Err`. Which of the two happens is not stated: it rests on
/// how far the consumer on the audio thread has drained the queue.
#[verifier::external_body]
pub(crate) fn push_switch(producer: &mut Producer<bool>, value: bool) -> (r: Result<(), bool>)
    ensures
        r is Ok ==> switches_sent(*final(producer)) == switches_sent(*old(producer)).push(value),
        r is Err ==> switches_sent(*final(producer)) == switches_sent(*old(producer)),
        r matches Err(back) ==> back == value,
{
    producer.push(value)
}

/// Calls `ringbuf::Producer::push` on a queue of filter types; the same
/// function as `push_switch`, with the same contract, over the history
/// of a queue of filter types.
#[verifier::external_body]
pub(crate) fn push_filter_type(producer: &mut Producer<FilterType>, value: FilterType) -> (r: Result<(), FilterType>)
    ensures
        r is Ok ==> filter_types_sent(*final(producer)) == filter_types_sent(*old(producer)).push(value),
        r is Err ==> filter_types_sent(*final(producer)) == filter_types_sent(*old(producer)),
        r matches Err(back) ==> back == value,
{
    producer.push(value)
}

} // verus!
