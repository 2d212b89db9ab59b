use orbits::orbit::OrbitBody;
use orbits::orbit::OrbitParams;
use orbits::orbit::angle_at;

fn quarter_turn_params() -> OrbitParams {
    OrbitParams {
        center_x: 1_000_000,
        center_y: -2_000_000,
        radius: 50_000_000,
        phase_ut: 0,
        rate_ut_per_s: 250_000,
    }
}

#[test]
fn angle_recomputed_at_same_time_is_identical() {
    let p = quarter_turn_params();
    for t in [0u64, 1, 999_999_999, 4_000_000_000, u64::MAX] {
        assert_eq!(angle_at(&p, t), angle_at(&p, t));
    }
}

#[test]
fn quarter_turn_per_second_after_two_seconds() {
    let p = quarter_turn_params();
    assert_eq!(angle_at(&p, 2_000_000_000), 500_000);
}

#[test]
fn retrograde_rate_wraps_backwards() {
    let p = OrbitParams { rate_ut_per_s: -250_000, ..quarter_turn_params() };
    assert_eq!(angle_at(&p, 1_000_000_000), 750_000);
}

#[test]
fn angle_wraps_past_full_turn() {
    let p = OrbitParams { phase_ut: 900_000, ..quarter_turn_params() };
    assert_eq!(angle_at(&p, 1_000_000_000), 150_000);
}

#[test]
fn angle_at_time_zero_is_phase() {
    let p = OrbitParams { phase_ut: 123_456, ..quarter_turn_params() };
    assert_eq!(angle_at(&p, 0), 123_456);
    let b = OrbitBody::new(p);
    assert_eq!(b.angle_ut, 123_456);
    assert!(b.params == p);
}

#[test]
fn angle_depends_only_on_params_and_time() {
    let p = quarter_turn_params();
    let b1 = OrbitBody { params: p, angle_ut: 0 };
    let b2 = OrbitBody { params: p, angle_ut: 999_999 };
    assert_eq!(
        angle_at(&b1.params, 3_000_000_000),
        angle_at(&b2.params, 3_000_000_000)
    );
}
