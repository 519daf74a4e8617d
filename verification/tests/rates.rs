use sampling_atomics::sample::{fixed_interval_rate, Rate};

#[test]
fn rate_of_fixed_interval_counts_is_total_over_time() {
    let rate = fixed_interval_rate(&[3, 5, 7], 2_000_000);
    assert_eq!(rate, Rate { events: 15, nanos: 6_000_000 });
}

#[test]
fn rate_of_no_counts_is_zero_over_zero() {
    let rate = fixed_interval_rate(&[], 1_000_000_000);
    assert_eq!(rate, Rate { events: 0, nanos: 0 });
}

#[test]
fn rate_total_does_not_overflow_on_large_counts() {
    let rate = fixed_interval_rate(&[u64::MAX, u64::MAX, 1], u64::MAX);
    assert_eq!(rate.events, 2 * (u64::MAX as u128) + 1);
    assert_eq!(rate.nanos, 3 * (u64::MAX as u128));
}

#[test]
fn rate_of_split_runs_adds_up() {
    let whole = fixed_interval_rate(&[4, 9, 1, 6], 10);
    let left = fixed_interval_rate(&[4, 9], 10);
    let right = fixed_interval_rate(&[1, 6], 10);
    assert_eq!(whole.events, left.events + right.events);
    assert_eq!(whole.nanos, left.nanos + right.nanos);
}

#[test]
fn mean_count_over_interval_matches_rate() {
    // 1000 events per 1 ms interval on average is 1e6 events per second.
    let rate = fixed_interval_rate(&[900, 1100], 1_000_000);
    assert_eq!(rate.events * 1_000_000_000 / rate.nanos, 1_000_000);
}

#[test]
fn rate_does_not_depend_on_order_of_counts() {
    let a = fixed_interval_rate(&[5, 1, 9, 1], 3);
    let b = fixed_interval_rate(&[1, 9, 1, 5], 3);
    assert_eq!(a, b);
}
