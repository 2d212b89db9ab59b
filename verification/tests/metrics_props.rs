use orbits::metrics::RateMeter;

#[test]
fn window_of_ten_tenth_second_ticks_measures_ten() {
    let mut m = RateMeter::new(1_000_000_000);
    for _ in 0..9 {
        assert_eq!(m.record(100_000_000), None);
    }
    assert_eq!(m.record(100_000_000), Some(10));
    assert_eq!(m.delta_sum_ns, 0);
    assert_eq!(m.count, 0);
}

#[test]
fn rate_rounds_half_up() {
    // 7 samples over exactly 2 seconds: 3.5 events per second reads as 4.
    let mut m = RateMeter::new(2_000_000_000);
    for _ in 0..6 {
        assert_eq!(m.record(300_000_000), None);
    }
    assert_eq!(m.record(200_000_000), Some(4));
}

#[test]
fn rate_rounds_down_below_half() {
    // 3 samples over exactly 1 second.
    let mut m = RateMeter::new(1_000_000_000);
    assert_eq!(m.record(400_000_000), None);
    assert_eq!(m.record(400_000_000), None);
    assert_eq!(m.record(200_000_000), Some(3));
}

#[test]
fn oversize_delta_closes_window_immediately() {
    let mut m = RateMeter::new(1_000_000_000);
    // One 2-second delta: half an event per second rounds half up to 1.
    assert_eq!(m.record(2_000_000_000), Some(1));
}

#[test]
fn meter_accumulates_between_windows() {
    let mut m = RateMeter::new(1_000_000_000);
    assert_eq!(m.record(250_000_000), None);
    assert_eq!(m.delta_sum_ns, 250_000_000);
    assert_eq!(m.count, 1);
}
