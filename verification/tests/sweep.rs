use sampling_atomics::sample::Sample;
use sampling_atomics::sweep::{CountedRun, SweepData};

fn s(count: u64) -> Sample {
    Sample { count, elapsed_nanos: 1_000 }
}

#[test]
fn counted_run_completes_at_target() {
    let mut run = CountedRun::new(3);
    assert!(!run.record(s(1)));
    assert!(!run.record(s(2)));
    assert!(run.record(s(3)));
    assert_eq!(run.samples_taken().len(), 3);
    assert_eq!(run.into_samples(), vec![s(1), s(2), s(3)]);
}

#[test]
fn counted_run_with_zero_target_takes_one_sample() {
    let mut run = CountedRun::new(0);
    assert!(run.record(s(9)));
    assert_eq!(run.into_samples(), vec![s(9)]);
}

#[test]
fn sweep_lookup_gives_back_what_was_stored() {
    let mut data = SweepData::new();
    assert!(data.get(10).is_none());
    data.insert(10, vec![s(1), s(2)]);
    data.insert(20, vec![s(3)]);
    assert_eq!(data.get(10), Some(&vec![s(1), s(2)]));
    assert_eq!(data.get(20), Some(&vec![s(3)]));
    assert!(data.get(30).is_none());
}

#[test]
fn sweep_insert_replaces_same_interval_only() {
    let mut data = SweepData::new();
    data.insert(10, vec![s(1)]);
    data.insert(20, vec![s(2)]);
    data.insert(10, vec![s(5), s(6)]);
    assert_eq!(data.get(10), Some(&vec![s(5), s(6)]));
    assert_eq!(data.get(20), Some(&vec![s(2)]));
}
