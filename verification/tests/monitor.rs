use sampling_atomics::monitor::{Channel, Monitor};

const SECOND: u64 = 1_000_000_000;
const MILLI: u64 = 1_000_000;

fn monitor() -> Monitor {
    Monitor::new(10 * SECOND, SECOND, 0, 2 * MILLI, 0)
}

#[test]
fn nothing_is_due_at_the_start() {
    let m = monitor();
    assert!(!m.is_over(0));
    assert!(!m.baseline_due(0));
    assert!(!m.sampling_due(0));
}

#[test]
fn counters_fall_due_after_their_interval() {
    let m = monitor();
    assert!(!m.baseline_due(2 * MILLI));
    assert!(m.sampling_due(2 * MILLI));
    assert!(m.baseline_due(SECOND));
    assert!(m.sampling_due(SECOND));
}

#[test]
fn first_interval_starts_at_its_own_reading() {
    let m = Monitor::new(10 * SECOND, SECOND, 40, 2 * MILLI, 90);
    assert!(!m.baseline_due(SECOND));
    assert!(m.baseline_due(SECOND + 40));
    assert!(!m.sampling_due(2 * MILLI + 89));
    assert!(m.sampling_due(2 * MILLI + 90));
}

#[test]
fn over_only_after_strictly_more_than_duration() {
    let m = monitor();
    assert!(!m.is_over(10 * SECOND));
    assert!(m.is_over(10 * SECOND + 1));
}

#[test]
fn next_interval_starts_at_the_reset_reading() {
    let mut m = monitor();
    m.take_sample(3 * MILLI, 3 * MILLI + 500, 17);
    assert_eq!(m.sampling_values(), &vec![17]);
    assert!(!m.sampling_due(5 * MILLI));
    assert!(!m.sampling_due(5 * MILLI + 499));
    assert!(m.sampling_due(5 * MILLI + 500));
    m.take_baseline(SECOND, SECOND, 400);
    m.take_sample(5 * MILLI + 500, 5 * MILLI + 600, 2);
    assert_eq!(m.baseline_values(), &vec![400]);
    assert_eq!(m.sampling_values(), &vec![17, 2]);
}

#[test]
fn driven_loop_stays_within_read_budget() {
    let duration = 10 * SECOND;
    let mut m = Monitor::new(duration, SECOND, 0, 300 * MILLI, 0);
    let mut now = 0;
    let mut value = 0;
    loop {
        if m.is_over(now) {
            break;
        }
        if m.baseline_due(now) {
            m.take_baseline(now, now, value);
        }
        if m.sampling_due(now) {
            m.take_sample(now, now, value);
        }
        value += 1;
        now += 7 * MILLI;
    }
    // Reads fall on the 7 ms grid: baseline at 1001 ms, 2002 ms, ..., 9009 ms;
    // samples at 301 ms, 602 ms, ..., 9933 ms.
    assert_eq!(m.baseline_values().len(), 9);
    assert_eq!(m.sampling_values().len(), 33);
    assert!(m.baseline_values().len() as u64 <= duration / SECOND);
    assert!(m.sampling_values().len() as u64 <= duration / (300 * MILLI));
}

#[test]
fn a_clock_reading_before_the_mark_is_not_due() {
    let mut c = Channel::new(100, 0);
    assert!(!c.due(99));
    assert!(c.due(100));
    c.take(500, 510, 1);
    assert!(!c.due(300));
    assert!(!c.due(609));
    assert!(c.due(610));
    assert_eq!(c.values_read(), &vec![1]);
    assert_eq!(c.interval_nanos(), 100);
}

#[test]
fn zero_interval_is_always_due() {
    let c = Channel::new(0, 0);
    assert!(c.due(0));
}
