use timeline_engine::clock::PositionClock;

#[test]
fn cadence_is_clamped_into_the_accepted_band() {
    assert_eq!(PositionClock::new(10).interval_ms, 40);
    assert_eq!(PositionClock::new(60).interval_ms, 60);
    assert_eq!(PositionClock::new(500).interval_ms, 100);
}

#[test]
fn stopped_clock_publishes_nothing() {
    let clock = PositionClock::new(50);
    assert_eq!(clock.tick(Some(1000)), None);
}

#[test]
fn running_clock_publishes_position_and_frame_number() {
    let mut clock = PositionClock::new(50);
    clock.start();
    assert_eq!(clock.tick(Some(2500)), Some((2500, 75)));
    assert_eq!(clock.tick(None), None);
    clock.set_framerate(25, 1);
    assert_eq!(clock.tick(Some(2500)), Some((2500, 62)));
}

#[test]
fn clock_stops_cleanly_on_dispose() {
    let mut clock = PositionClock::new(50);
    clock.start();
    assert!(clock.tick(Some(0)).is_some());
    clock.stop();
    assert_eq!(clock.tick(Some(0)), None);
}
