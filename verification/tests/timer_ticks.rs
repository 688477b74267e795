use deferred::timer::Timer;

#[test]
fn elapsed_spans_between_readings() {
    let mut t = Timer::new();
    assert_eq!(t.get_elapsed_ms(), 0);
    t.start(1000);
    t.update(1016);
    assert_eq!(t.get_elapsed_ms(), 16);
    t.update(1049);
    assert_eq!(t.get_elapsed_ms(), 33);
}

#[test]
fn stop_clears_the_reference_reading() {
    let mut t = Timer::new();
    t.start(500);
    t.update(750);
    assert_eq!(t.get_elapsed_ms(), 250);
    t.stop();
    // restarting times from the new reading, not the old one
    t.start(10_000);
    t.update(10_001);
    assert_eq!(t.get_elapsed_ms(), 1);
}
