use orbits::camera::Camera;
use orbits::input::UserInput;

const CENTER_MAX: i64 = 0x4_0000_0000_0000;

fn input_with(pan_dx: i64, pan_dy: i64, zoom_steps: i64) -> UserInput {
    UserInput {
        pointer_x: 0,
        pointer_y: 0,
        dragging: false,
        pan_dx,
        pan_dy,
        zoom_steps,
        quit: false,
    }
}

#[test]
fn pan_moves_center_against_the_drag() {
    let cam = Camera::new(800, 600);
    let moved = cam.integrate(&input_with(3, -4, 0));
    assert_eq!(moved.center_x, -3_000_000);
    assert_eq!(moved.center_y, 4_000_000);
    assert_eq!(moved.scale, cam.scale);
}

#[test]
fn pan_clamps_at_the_world_edge() {
    let cam = Camera {
        center_x: CENTER_MAX - 1,
        center_y: 0,
        scale: 1_000_000,
        width_px: 800,
        height_px: 600,
    };
    let moved = cam.integrate(&input_with(-10, 0, 0));
    assert_eq!(moved.center_x, CENTER_MAX);
}

#[test]
fn zoom_in_never_drops_below_finest_scale() {
    let cam = Camera { center_x: 0, center_y: 0, scale: 1, width_px: 100, height_px: 100 };
    let zoomed = cam.integrate(&input_with(0, 0, 5));
    assert_eq!(zoomed.scale, 1);
}

#[test]
fn zoom_out_grows_from_finest_scale() {
    let cam = Camera { center_x: 0, center_y: 0, scale: 1, width_px: 100, height_px: 100 };
    let zoomed = cam.integrate(&input_with(0, 0, -3));
    // 1 -> 2 -> 3 -> 4: a tenth of a tiny scale is less than one whole step.
    assert_eq!(zoomed.scale, 4);
}

#[test]
fn visible_range_centers_on_the_camera() {
    let cam = Camera::new(1024, 768);
    let r = cam.visible_world_range();
    assert_eq!(r.min_x, -512_000_000);
    assert_eq!(r.max_x, 512_000_000);
    assert_eq!(r.min_y, -384_000_000);
    assert_eq!(r.max_y, 384_000_000);
}
