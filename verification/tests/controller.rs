use genesis::camera::CameraController;
use genesis::input::Key;

#[test]
fn new_controller_holds_no_direction() {
    let c = CameraController::new();
    assert!(!c.is_forward());
    assert!(!c.is_backwards());
    assert!(!c.is_left());
    assert!(!c.is_right());
}

#[test]
fn arrow_keys_set_and_clear_their_flag() {
    let mut c = CameraController::new();

    assert!(c.process_events(Key::ArrowUp, true));
    assert!(c.is_forward());
    assert!(c.process_events(Key::ArrowUp, false));
    assert!(!c.is_forward());

    assert!(c.process_events(Key::ArrowDown, true));
    assert!(c.is_backwards());

    assert!(c.process_events(Key::ArrowLeft, true));
    assert!(c.is_left());

    assert!(c.process_events(Key::ArrowRight, true));
    assert!(c.is_right());

    assert!(c.is_backwards());
    assert!(!c.is_forward());
}

#[test]
fn other_keys_are_not_handled() {
    let mut c = CameraController::new();
    assert!(!c.process_events(Key::Escape, true));
    assert!(!c.process_events(Key::Other, true));
    assert!(!c.is_forward());
    assert!(!c.is_backwards());
    assert!(!c.is_left());
    assert!(!c.is_right());
}
