use vstd::prelude::*;
use ringbuf::Producer;
use crate::queues::{filter_types_sent, push_filter_type};

verus! {

/// The response of the synth's biquad filter, in the order of the filter
/// menu: low pass, high pass, band pass, notch, peak, low shelf, high shelf.
#[derive(Clone, Copy, Debug, PartialEq, Eq, Structural)]
pub enum FilterType {
    Lowpass,
    Highpass,
    Bandpass,
    Notch,
    Peak,
    Lowshelf,
    Highshelf,
}

/// The number of entries of the filter menu.
pub const FILTER_TYPE_COUNT: usize = 7;

/// The filter type at a position of the filter menu.
pub open spec fn filter_type_at(index: int) -> FilterType
    recommends
        0 <= index < 7,
{
    if index == 0 {
        FilterType::Lowpass
    } else if index == 1 {
        FilterType::Highpass
    } else if index == 2 {
        FilterType::Bandpass
    } else if index == 3 {
        FilterType::Notch
    } else if index == 4 {
        FilterType::Peak
    } else if index == 5 {
        FilterType::Lowshelf
    } else {
        FilterType::Highshelf
    }
}

/// The filter type that the menu entry `index` names.
pub fn filter_type_from_index(index: usize) -> (t: FilterType)
    requires
        index < FILTER_TYPE_COUNT,
    ensures
        t == filter_type_at(index as int),
{
    match index {
        0 => FilterType::Lowpass,
        1 => FilterType::Highpass,
        2 => FilterType::Bandpass,
        3 => FilterType::Notch,
        4 => FilterType::Peak,
        5 => FilterType::Lowshelf,
        _ => FilterType::Highshelf,
    }
}

/// Selects the filter-menu entry `index`: the selection shown becomes `index`
/// whatever happens, and the filter type it names is sent to the audio thread
/// if the queue has room. Answers whether the queue took it.
pub fn select_filter_type(
    producer: &mut Producer<FilterType>,
    selected: &mut usize,
    index: usize,
) -> (sent: bool)
    requires
        index < FILTER_TYPE_COUNT,
    ensures
        *final(selected) == index,
        sent ==> filter_types_sent(*final(producer)) == filter_types_sent(*old(producer)).push(
            filter_type_at(index as int),
        ),
        !sent ==> filter_types_sent(*final(producer)) == filter_types_sent(*old(producer)),
{
    *selected = index;
    let filter_type = filter_type_from_index(index);
    let sent = push_filter_type(producer, filter_type).is_ok();
    if sent {
        *selected = index;
    }
    sent
}

/// The entries of the filter menu name distinct filter types, and every filter
/// type has an entry.
pub proof fn lemma_filter_menu_is_a_bijection(i: int, j: int, t: FilterType)
    requires
        0 <= i < 7,
        0 <= j < 7,
    ensures
        filter_type_at(i) == filter_type_at(j) ==> i == j,
        exists|k: int| 0 <= k < 7 && filter_type_at(k) == t,
{
    let k: int = match t {
        FilterType::Lowpass => 0,
        FilterType::Highpass => 1,
        FilterType::Bandpass => 2,
        FilterType::Notch => 3,
        FilterType::Peak => 4,
        FilterType::Lowshelf => 5,
        FilterType::Highshelf => 6,
    };
    assert(filter_type_at(k) == t);
}

} // verus!
