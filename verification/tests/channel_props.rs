use orbits::channel::channel_frame_step;
use orbits::channel::publish_snapshot;
use orbits::channel::seed_channel;
use orbits::input::InputEvent;
use orbits::metrics::RateMeter;
use orbits::orbit::OrbitParams;
use orbits::sim::SimState;

#[test]
fn latest_returns_last_of_many_updates() {
    let (mut rx, tx) = single_value_channel::channel_starting_with(0u64);
    for v in 1..=100u64 {
        tx.update(v).unwrap();
    }
    assert_eq!(*rx.latest(), 100);
    let (mut rx2, tx2) = single_value_channel::channel_starting_with(7u64);
    tx2.update(42).unwrap();
    assert_eq!(*rx2.latest(), 42);
}

#[test]
fn latest_before_any_update_returns_seeded_default() {
    let (mut rx, _tx) = single_value_channel::channel_starting_with(7u64);
    assert_eq!(*rx.latest(), 7);
}

#[test]
fn latest_is_idempotent_without_updates() {
    let (mut rx, tx) = single_value_channel::channel_starting_with(1u64);
    assert_eq!(*rx.latest(), 1);
    assert_eq!(*rx.latest(), 1);
    tx.update(5).unwrap();
    assert_eq!(*rx.latest(), 5);
    assert_eq!(*rx.latest(), 5);
}

#[test]
fn update_after_receiver_dropped_reports_failure() {
    let (rx, tx) = single_value_channel::channel_starting_with(0u64);
    drop(rx);
    let r = tx.update(9);
    assert_eq!(r, Err(single_value_channel::NoReceiverError(9)));
}

#[test]
fn publish_and_read_through_library_channel() {
    let mut st = SimState::new(1024, 768, 1_000_000_000);
    st.add_body(OrbitParams {
        center_x: 0,
        center_y: 0,
        radius: 50_000_000,
        phase_ut: 0,
        rate_ut_per_s: 250_000,
    });
    let (mut rx, tx) = seed_channel(&st);
    let mut meter = RateMeter::new(1_000_000_000);

    let (snap0, step0) = channel_frame_step(&mut rx, &mut meter, 0, 1_000_000);
    assert!(!step0.stop);
    assert_eq!(snap0.bodies.len(), 1);
    assert_eq!(snap0.bodies[0].angle_ut, 0);
    assert!(!snap0.quit);

    let evs = vec![InputEvent::CloseRequested];
    st.tick(&evs, 4_000_000);
    assert!(st.quit);
    assert!(publish_snapshot(&st, &tx).is_ok());

    let (snap1, step1) = channel_frame_step(&mut rx, &mut meter, 0, 1_000_000);
    assert!(step1.stop);
    assert!(snap1.quit);
    assert_eq!(snap1.bodies.len(), 1);
    assert_eq!(snap1.bodies[0].angle_ut, 1000);
}

#[test]
fn publish_after_consumer_dropped_fails_with_snapshot() {
    let st = SimState::new(640, 480, 1_000_000_000);
    let (rx, tx) = seed_channel(&st);
    drop(rx);
    match publish_snapshot(&st, &tx) {
        Err(snap) => {
            assert!(!snap.quit);
            assert_eq!(snap.bodies.len(), 0);
        },
        Ok(()) => panic!("publish must fail once the consumer is gone"),
    }
}
