use sampling_atomics::sample::Sample;
use sampling_atomics::timeseries::{plan_traces, IntervalSeries, SeriesKind, Stamped, TimedRun};

fn p(at: u64, count: u64) -> Stamped {
    Stamped { at_nanos: at, sample: Sample { count, elapsed_nanos: 10 } }
}

#[test]
fn timed_run_stops_once_horizon_reached() {
    let mut run = TimedRun::new(100);
    assert!(!run.finished());
    assert!(!run.record(p(10, 1), 10));
    assert!(!run.record(p(99, 2), 99));
    assert!(run.record(p(100, 3), 100));
    assert!(run.finished());
    assert_eq!(run.points_taken().len(), 3);
    assert_eq!(run.into_points(), vec![p(10, 1), p(99, 2), p(100, 3)]);
}

#[test]
fn timed_run_check_uses_its_own_clock_reading() {
    let mut run = TimedRun::new(100);
    assert!(run.record(p(90, 1), 120));
    assert_eq!(run.into_points(), vec![p(90, 1)]);
}

fn data() -> Vec<IntervalSeries> {
    vec![
        IntervalSeries {
            interval_nanos: 500,
            sampled: vec![p(1, 1), p(2, 2), p(3, 3), p(4, 4)],
            baseline: vec![p(10, 7)],
        },
        IntervalSeries { interval_nanos: 50, sampled: vec![p(1, 5)], baseline: vec![] },
    ]
}

#[test]
fn plan_without_baseline_skips_warmup() {
    let traces = plan_traces(&data(), false);
    assert_eq!(traces.len(), 2);
    assert_eq!(traces[0].interval_nanos, 500);
    assert_eq!(traces[0].kind, SeriesKind::Sampled);
    assert_eq!(traces[0].points, vec![p(3, 3), p(4, 4)]);
    assert_eq!(traces[1].interval_nanos, 50);
    assert!(traces[1].points.is_empty());
}

#[test]
fn plan_with_baseline_adds_whole_baseline_series() {
    let traces = plan_traces(&data(), true);
    assert_eq!(traces.len(), 4);
    assert_eq!(traces[1].kind, SeriesKind::Baseline);
    assert_eq!(traces[1].points, vec![p(10, 7)]);
    assert_eq!(traces[2].kind, SeriesKind::Sampled);
    assert_eq!(traces[3].kind, SeriesKind::Baseline);
    assert_eq!(traces[3].interval_nanos, 50);
}

#[test]
fn plan_of_no_data_is_empty() {
    assert!(plan_traces(&vec![], true).is_empty());
}
