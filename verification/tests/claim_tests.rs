use explorer_server::claim::{may_fetch, ClaimCounter};

#[test]
fn claims_are_consecutive_and_unique() {
    let mut counter = ClaimCounter::new(7);
    assert_eq!(counter.peek(), 7);
    assert_eq!(counter.claim(), Some(7));
    assert_eq!(counter.claim(), Some(8));
    assert_eq!(counter.claim(), Some(9));
    assert_eq!(counter.peek(), 10);
}

#[test]
fn counter_never_hands_out_the_largest_height() {
    let mut counter = ClaimCounter::new(usize::MAX - 1);
    assert_eq!(counter.claim(), Some(usize::MAX - 1));
    assert_eq!(counter.claim(), None);
    assert_eq!(counter.claim(), None);
    assert_eq!(counter.peek(), usize::MAX);
}

#[test]
fn throttle_opens_within_lookahead_of_the_last_commit() {
    // frontier 10: heights up to 9 are committed
    assert!(may_fetch(10, 5, 10));
    assert!(may_fetch(10, 5, 14));
    assert!(!may_fetch(10, 5, 15));
    assert!(!may_fetch(10, 5, 1000));
    // a height below the frontier is always let through
    assert!(may_fetch(10, 0, 9));
}

#[test]
fn throttle_with_no_lookahead_lets_nothing_new_through() {
    assert!(!may_fetch(0, 0, 0));
    assert!(may_fetch(0, 1, 0));
    assert!(!may_fetch(0, 1, 1));
}

#[test]
fn throttle_does_not_overflow_at_the_top() {
    assert!(may_fetch(usize::MAX, usize::MAX, usize::MAX));
    assert!(!may_fetch(0, usize::MAX, usize::MAX));
    assert!(may_fetch(1, usize::MAX, usize::MAX));
}
