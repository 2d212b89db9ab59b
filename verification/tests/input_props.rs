use orbits::input::InputEvent;
use orbits::input::UserInput;

const ACC_MAX: i64 = 0x8000_0000;

#[test]
fn close_request_latches_quit() {
    let mut inp = UserInput::new();
    inp.apply_event(&InputEvent::CloseRequested);
    assert!(inp.quit);
    inp.apply_event(&InputEvent::ButtonReleased);
    assert!(inp.quit);
}

#[test]
fn drag_accumulates_pointer_motion() {
    let mut inp = UserInput::new();
    let evs = vec![
        InputEvent::ButtonPressed,
        InputEvent::PointerMoved { x: 5, y: 7 },
        InputEvent::PointerMoved { x: 9, y: 2 },
        InputEvent::ButtonReleased,
        InputEvent::PointerMoved { x: 100, y: 100 },
    ];
    inp.apply_events(&evs);
    assert_eq!(inp.pan_dx, 9);
    assert_eq!(inp.pan_dy, 2);
    assert!(!inp.dragging);
    assert_eq!(inp.pointer_x, 100);
    assert_eq!(inp.pointer_y, 100);
}

#[test]
fn pan_accumulator_clamps() {
    let mut inp = UserInput::new();
    inp.pan_dx = ACC_MAX;
    inp.dragging = true;
    inp.apply_event(&InputEvent::PointerMoved { x: 1000, y: 0 });
    assert_eq!(inp.pan_dx, ACC_MAX);
}

#[test]
fn zoom_accumulates_steps() {
    let mut inp = UserInput::new();
    inp.apply_event(&InputEvent::Zoom { steps: 3 });
    inp.apply_event(&InputEvent::Zoom { steps: -1 });
    assert_eq!(inp.zoom_steps, 2);
}
