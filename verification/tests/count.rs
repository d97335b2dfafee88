use sync_primitives::count::{check, join, last, raise, sole, Overflow};

#[test]
fn check_accepts_counts_up_to_half_the_range() {
    assert_eq!(check(0), Ok(()));
    assert_eq!(check(1), Ok(()));
    assert_eq!(check(usize::MAX / 2), Ok(()));
}

#[test]
fn check_reports_counts_past_half_the_range() {
    assert_eq!(check(usize::MAX / 2 + 1), Err(Overflow));
    assert_eq!(check(usize::MAX), Err(Overflow));
}

#[test]
fn last_is_the_decrement_from_one() {
    assert!(last(1));
    assert!(!last(2));
    assert!(!last(0));
    assert!(!last(usize::MAX));
}

#[test]
fn sole_is_a_total_of_one() {
    assert!(sole(1));
    assert!(!sole(0));
    assert!(!sole(2));
}

#[test]
fn raise_adds_one_to_a_live_count() {
    assert_eq!(raise(1), Some(2));
    assert_eq!(raise(41), Some(42));
    assert_eq!(raise(usize::MAX / 2), Some(usize::MAX / 2 + 1));
}

#[test]
fn raise_leaves_a_dead_count_dead() {
    assert_eq!(raise(0), None);
}

#[test]
fn raise_never_goes_past_the_limit() {
    assert_eq!(raise(usize::MAX / 2 + 1), None);
    assert_eq!(raise(usize::MAX), None);
}

#[test]
fn join_reads_a_replaced_count_as_success() {
    assert_eq!(join(Ok(1)), Ok(true));
    assert_eq!(join(Ok(7)), Ok(true));
}

#[test]
fn join_reads_an_untouched_zero_as_death() {
    assert_eq!(join(Err(0)), Ok(false));
}

#[test]
fn join_reads_any_other_untouched_count_as_overflow() {
    assert_eq!(join(Err(usize::MAX / 2 + 1)), Err(Overflow));
    assert_eq!(join(Err(usize::MAX)), Err(Overflow));
}
