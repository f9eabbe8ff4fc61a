use weathercache::schedule::{
    next_interval, scheduler_step, SchedulerAction, SchedulerEvent, SchedulerPhase,
    FORECAST_INTERVAL_SECS, WEATHER_INTERVAL_SECS,
};

#[test]
fn delay_for_hourly_interval_at_epoch_second_1000() {
    assert_eq!(next_interval(3600, 1000), 2600);
}

#[test]
fn delay_lands_on_an_epoch_aligned_boundary() {
    for now in [0u64, 1, 3599, 3600, 3601, 1709312400] {
        let delay = next_interval(3600, now);
        assert!(1 <= delay && delay <= 3600);
        assert_eq!((now + delay) % 3600, 0);
    }
}

#[test]
fn delay_on_a_boundary_is_a_full_interval() {
    assert_eq!(next_interval(3600, 7200), 3600);
    assert_eq!(next_interval(21600, 0), 21600);
}

#[test]
fn refresh_intervals_are_one_and_six_hours() {
    assert_eq!(WEATHER_INTERVAL_SECS, 3600);
    assert_eq!(FORECAST_INTERVAL_SECS, 6 * 3600);
}

#[test]
fn scheduler_serializes_overlapping_cycles() {
    let (phase, action) = scheduler_step(SchedulerPhase::Idle, SchedulerEvent::Arm);
    assert_eq!(phase, SchedulerPhase::Waiting);
    assert_eq!(action, SchedulerAction::DoNothing);

    let (phase, action) = scheduler_step(phase, SchedulerEvent::Boundary);
    assert_eq!(phase, SchedulerPhase::Running { queued: false });
    assert_eq!(action, SchedulerAction::BeginCycle);

    // A boundary during a running cycle starts nothing and is queued.
    let (phase, action) = scheduler_step(phase, SchedulerEvent::Boundary);
    assert_eq!(phase, SchedulerPhase::Running { queued: true });
    assert_eq!(action, SchedulerAction::DoNothing);

    // The queued firing is served as soon as the cycle ends, never dropped.
    let (phase, action) = scheduler_step(phase, SchedulerEvent::CycleDone);
    assert_eq!(phase, SchedulerPhase::Running { queued: false });
    assert_eq!(action, SchedulerAction::BeginCycle);

    // A cycle with nothing queued hands the scheduler back to waiting.
    let (phase, action) = scheduler_step(phase, SchedulerEvent::CycleDone);
    assert_eq!(phase, SchedulerPhase::Waiting);
    assert_eq!(action, SchedulerAction::DoNothing);
}

#[test]
fn the_wall_clock_delay_stays_within_one_interval() {
    let delay = weathercache::schedule::delay_until_boundary(3600);
    assert!(1 <= delay && delay <= 3600);
}
