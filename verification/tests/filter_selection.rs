use fm_synth::filter::{filter_type_from_index, select_filter_type, FilterType, FILTER_TYPE_COUNT};
use ringbuf::RingBuffer;

#[test]
fn menu_entries_name_filter_types_in_order() {
    let expected = [
        FilterType::Lowpass,
        FilterType::Highpass,
        FilterType::Bandpass,
        FilterType::Notch,
        FilterType::Peak,
        FilterType::Lowshelf,
        FilterType::Highshelf,
    ];
    assert_eq!(FILTER_TYPE_COUNT, 7);
    for (i, t) in expected.iter().enumerate() {
        assert_eq!(filter_type_from_index(i), *t);
    }
}

#[test]
fn selecting_sends_the_filter_type() {
    let (mut p, mut c) = RingBuffer::<FilterType>::new(2).split();
    let mut selected = 0usize;
    assert!(select_filter_type(&mut p, &mut selected, 3));
    assert_eq!(selected, 3);
    assert_eq!(c.pop(), Some(FilterType::Notch));
    assert_eq!(c.pop(), None);
}

#[test]
fn selection_changes_even_when_the_queue_is_full() {
    let (mut p, mut c) = RingBuffer::<FilterType>::new(0).split();
    let mut selected = 1usize;
    assert!(!select_filter_type(&mut p, &mut selected, 6));
    assert_eq!(selected, 6);
    assert_eq!(c.pop(), None);
}
