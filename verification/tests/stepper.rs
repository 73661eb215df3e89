use gem_rs::stepper::inclusive_iterator;

#[test]
fn wraps_forward_at_max() {
    assert_eq!(inclusive_iterator(59, 0, 59, true), 0);
}

#[test]
fn wraps_backward_at_min() {
    assert_eq!(inclusive_iterator(0, 0, 59, false), 59);
}

#[test]
fn plain_increment_and_decrement() {
    assert_eq!(inclusive_iterator(10, 0, 59, true), 11);
    assert_eq!(inclusive_iterator(10, 0, 59, false), 9);
    assert_eq!(inclusive_iterator(1, 1, 12, true), 2);
    assert_eq!(inclusive_iterator(2, 1, 12, false), 1);
}

#[test]
fn round_trip_over_whole_range() {
    for v in 0..=59u8 {
        let up = inclusive_iterator(v, 0, 59, true);
        assert_eq!(inclusive_iterator(up, 0, 59, false), v);
    }
    for v in 1..=31u8 {
        let up = inclusive_iterator(v, 1, 31, true);
        assert_eq!(inclusive_iterator(up, 1, 31, false), v);
    }
}

#[test]
fn single_value_range_stays_put() {
    assert_eq!(inclusive_iterator(7, 7, 7, true), 7);
    assert_eq!(inclusive_iterator(7, 7, 7, false), 7);
}
