use genesis::config::Config;
use genesis::graphics::GraphicsError;
use genesis::genesis::GameState;
use genesis::input::{ExitSignal, InputEvent, Key};
use genesis::scene::Scene;

#[test]
fn config_keeps_its_fields() {
    let c = Config::new("Genesis", 800, 600, false);
    assert_eq!(c.title, "Genesis");
    assert_eq!(c.width, 800);
    assert_eq!(c.height, 600);
    assert!(!c.fullscreen);
}

#[test]
fn setup_error_messages_name_the_resource() {
    assert!(GraphicsError::NoCompatibleAdapter.message().contains("adapter"));
    assert!(GraphicsError::NoDevice.message().contains("device"));
    assert!(GraphicsError::NoSurfaceConfiguration.message().contains("surface"));
}

#[test]
fn exit_signal_latches() {
    let mut exit = ExitSignal::new();
    assert!(!exit.is_requested());
    exit.request();
    assert!(exit.is_requested());
    exit.request();
    assert!(exit.is_requested());
}

#[test]
fn game_state_builds_an_uninitialized_scene() {
    let scene = GameState::GamePlay.init();
    assert!(!scene.is_initialized());
}

#[test]
fn gameplay_requests_exit_on_escape() {
    let mut scene = GameState::GamePlay.init();
    let mut exit = ExitSignal::new();

    scene.input(&InputEvent::Key { key: Key::ArrowUp, pressed: true }, &mut exit);
    assert!(!exit.is_requested());

    scene.input(&InputEvent::Key { key: Key::Escape, pressed: false }, &mut exit);
    assert!(!exit.is_requested());

    scene.input(&InputEvent::Key { key: Key::Escape, pressed: true }, &mut exit);
    assert!(exit.is_requested());
}

#[test]
fn gameplay_update_and_cleanup_keep_the_flag() {
    let mut scene = GameState::GamePlay.init();
    scene.update(16);
    assert!(!scene.is_initialized());
    scene.cleanup();
    assert!(!scene.is_initialized());
}
