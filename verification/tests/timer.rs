use sampling_atomics::timer::TickTimer;

#[test]
fn tick_measures_from_previous_schedule_to_observation() {
    let mut t = TickTimer::new(1_000);
    assert_eq!(t.tick(2_000, 2_300), 1_300);
    assert_eq!(t.tick(3_000, 3_050), 1_050);
}

#[test]
fn tick_observed_before_previous_schedule_measures_zero() {
    let mut t = TickTimer::new(5_000);
    assert_eq!(t.tick(6_000, 4_000), 0);
    assert_eq!(t.tick(7_000, 7_000), 1_000);
}

#[test]
fn punctual_ticks_add_up_to_span() {
    let mut t = TickTimer::new(0);
    let a = t.tick(400, 400);
    let b = t.tick(1_000, 1_000);
    assert_eq!(a + b, 1_000);
}
