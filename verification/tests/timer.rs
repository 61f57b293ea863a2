use text_animator::timer::is_due;

const MS: u128 = 1_000_000;

#[test]
fn due_exactly_at_the_interval() {
    assert!(is_due(0, 250 * MS, 250 * MS));
    assert!(is_due(1_000 * MS, 250 * MS, 1_250 * MS));
}

#[test]
fn not_due_one_nanosecond_early() {
    assert!(!is_due(0, 250 * MS, 250 * MS - 1));
    assert!(!is_due(1_000 * MS, 250 * MS, 1_250 * MS - 1));
}

#[test]
fn due_after_the_interval() {
    assert!(is_due(0, 250 * MS, 251 * MS));
    assert!(is_due(5, 10, u128::MAX));
}

#[test]
fn not_due_at_the_time_of_the_last_advance() {
    assert!(!is_due(700, 250, 700));
}

#[test]
fn a_clock_that_ran_backwards_counts_as_no_time_passed() {
    assert!(!is_due(1_000, 250, 10));
    assert!(!is_due(u128::MAX, 1, 0));
}

#[test]
fn an_interval_of_zero_is_always_due() {
    assert!(is_due(0, 0, 0));
    assert!(is_due(1_000, 0, 10));
    assert!(is_due(10, 0, 1_000));
}
