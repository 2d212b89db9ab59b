use orbits::camera::Camera;
use orbits::metrics::RateMeter;
use orbits::pace::sleep_budget_ns;
use orbits::render::frame_step;
use orbits::snapshot::Snapshot;

fn snapshot(quit: bool) -> Snapshot {
    Snapshot {
        camera: Camera::new(1024, 768),
        bodies: vec![],
        measured_tps: 0,
        quit,
    }
}

#[test]
fn overrun_iteration_sleeps_zero() {
    assert_eq!(sleep_budget_ns(100, 150), 0);
    assert_eq!(sleep_budget_ns(100, 100), 0);
}

#[test]
fn fast_iteration_sleeps_the_remainder() {
    assert_eq!(sleep_budget_ns(100, 40), 60);
    assert_eq!(sleep_budget_ns(100, 0), 100);
}

#[test]
fn quitting_snapshot_stops_the_frame_untouched() {
    let mut meter = RateMeter::new(1_000_000_000);
    let step = frame_step(&snapshot(true), &mut meter, 17, 1_000_000);
    assert!(step.stop);
    assert_eq!(step.measured_fps, 17);
    assert_eq!(meter.count, 0);
    assert_eq!(meter.delta_sum_ns, 0);
}

#[test]
fn frame_derives_visible_range_from_snapshot() {
    let mut meter = RateMeter::new(1_000_000_000);
    let step = frame_step(&snapshot(false), &mut meter, 0, 1_000_000);
    assert!(!step.stop);
    assert_eq!(step.range.min_x, -512_000_000);
    assert_eq!(step.range.max_x, 512_000_000);
    assert_eq!(step.range.min_y, -384_000_000);
    assert_eq!(step.range.max_y, 384_000_000);
}

#[test]
fn malformed_camera_yields_empty_range() {
    let mut meter = RateMeter::new(1_000_000_000);
    let mut snap = snapshot(false);
    snap.camera.scale = 0;
    let step = frame_step(&snap, &mut meter, 0, 1_000_000);
    assert_eq!(step.range.min_x, 0);
    assert_eq!(step.range.max_x, 0);
}

#[test]
fn frame_rate_measured_after_one_window() {
    let mut meter = RateMeter::new(1_000_000_000);
    let snap = snapshot(false);
    let mut fps: u32 = 0;
    for _ in 0..3 {
        let step = frame_step(&snap, &mut meter, fps, 250_000_000);
        fps = step.measured_fps;
        assert_eq!(fps, 0);
    }
    let step = frame_step(&snap, &mut meter, fps, 250_000_000);
    assert_eq!(step.measured_fps, 4);
}
