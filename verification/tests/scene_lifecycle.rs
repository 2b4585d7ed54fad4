use std::cell::RefCell;
use std::rc::Rc;

use genesis::input::{ExitSignal, InputEvent};
use genesis::scene::{Scene, SceneContext};
use genesis::scene_manager::SceneManager;

/// A placeholder graphics context: scene logic can be exercised without a
/// GPU device.
struct Ctx;

impl SceneContext for Ctx {
    fn inv(&self) -> bool {
        true
    }
}

/// A scene that records every lifecycle call it receives.
struct Recorder {
    name: &'static str,
    initialized: bool,
    init_calls: u32,
    cleanup_calls: u32,
    update_calls: u32,
    log: Rc<RefCell<Vec<String>>>,
}

impl Recorder {
    fn new(name: &'static str, log: Rc<RefCell<Vec<String>>>) -> Recorder {
        Recorder {
            name,
            initialized: false,
            init_calls: 0,
            cleanup_calls: 0,
            update_calls: 0,
            log,
        }
    }
}

impl Scene<Ctx> for Recorder {
    fn initialized(&self) -> bool {
        self.initialized
    }

    fn is_initialized(&self) -> bool {
        self.initialized
    }

    fn init(&mut self, _graphics: &mut Ctx) {
        self.init_calls += 1;
        self.initialized = true;
        self.log.borrow_mut().push(format!("init {}", self.name));
    }

    fn input(&mut self, _event: &InputEvent, _exit: &mut ExitSignal) {}

    fn update(&mut self, _delta_ms: u32) {
        self.update_calls += 1;
    }

    fn draw(&self, _graphics: &mut Ctx) {}

    fn cleanup(&mut self) {
        self.cleanup_calls += 1;
        self.log.borrow_mut().push(format!("cleanup {}", self.name));
    }
}

fn manager_with(names: &[&'static str], log: &Rc<RefCell<Vec<String>>>) -> SceneManager<Ctx, Recorder> {
    let mut m = SceneManager::new();
    for name in names {
        m.add_scene(name, Recorder::new(name, Rc::clone(log)));
    }
    m
}

#[test]
fn request_then_reconcile_activates_and_initializes_once() {
    let log = Rc::new(RefCell::new(Vec::new()));
    let mut m = manager_with(&["menu", "play"], &log);
    let mut ctx = Ctx;

    assert!(m.get_active_scene().is_none());
    m.request_scene_change("menu");
    assert!(m.get_active_scene().is_none());

    m.update(&mut ctx);
    let active = m.get_active_scene().expect("a scene must be active");
    assert_eq!(active.name, "menu");
    assert!(active.is_initialized());
    assert_eq!(active.init_calls, 1);
    assert_eq!(log.borrow().as_slice(), &["init menu".to_string()]);
}

#[test]
fn reconcile_twice_is_idempotent() {
    let log = Rc::new(RefCell::new(Vec::new()));
    let mut m = manager_with(&["menu"], &log);
    let mut ctx = Ctx;

    m.request_scene_change("menu");
    m.update(&mut ctx);
    m.update(&mut ctx);

    let active = m.get_active_scene().expect("a scene must be active");
    assert_eq!(active.init_calls, 1);
    assert_eq!(active.cleanup_calls, 0);
    assert_eq!(log.borrow().len(), 1);
}

#[test]
fn switching_cleans_up_before_initializing() {
    let log = Rc::new(RefCell::new(Vec::new()));
    let mut m = manager_with(&["a", "b"], &log);
    let mut ctx = Ctx;

    m.request_scene_change("a");
    m.update(&mut ctx);
    m.request_scene_change("b");
    m.update(&mut ctx);

    assert_eq!(
        log.borrow().as_slice(),
        &["init a".to_string(), "cleanup a".to_string(), "init b".to_string()]
    );
    assert_eq!(m.get_active_scene().unwrap().name, "b");
}

#[test]
fn reactivation_does_not_initialize_again() {
    let log = Rc::new(RefCell::new(Vec::new()));
    let mut m = manager_with(&["a", "b"], &log);
    let mut ctx = Ctx;

    m.request_scene_change("a");
    m.update(&mut ctx);
    m.request_scene_change("b");
    m.update(&mut ctx);
    m.request_scene_change("a");
    m.update(&mut ctx);

    let active = m.get_active_scene().expect("a scene must be active");
    assert_eq!(active.name, "a");
    assert_eq!(active.init_calls, 1);
    assert!(active.is_initialized());
}

#[test]
fn request_unknown_label_is_a_no_op() {
    let log = Rc::new(RefCell::new(Vec::new()));
    let mut m = manager_with(&["menu"], &log);
    let mut ctx = Ctx;

    m.request_scene_change("menu");
    m.update(&mut ctx);

    m.request_scene_change("missing");
    m.update(&mut ctx);

    let active = m.get_active_scene().expect("a scene must be active");
    assert_eq!(active.name, "menu");
    assert_eq!(active.init_calls, 1);
    assert_eq!(active.cleanup_calls, 0);
    assert_eq!(log.borrow().len(), 1);
}

#[test]
fn menu_play_scenario() {
    let log = Rc::new(RefCell::new(Vec::new()));
    let mut m = manager_with(&["Menu", "Play"], &log);
    let mut ctx = Ctx;

    m.request_scene_change("Menu");
    m.update(&mut ctx);
    {
        let menu = m.get_active_scene().expect("Menu must be active");
        assert_eq!(menu.name, "Menu");
        assert_eq!(menu.init_calls, 1);
        assert!(menu.is_initialized());
    }

    m.request_scene_change("Play");
    m.update(&mut ctx);
    {
        let play = m.get_active_scene().expect("Play must be active");
        assert_eq!(play.name, "Play");
        assert_eq!(play.init_calls, 1);
    }
    assert_eq!(
        log.borrow().as_slice(),
        &["init Menu".to_string(), "cleanup Menu".to_string(), "init Play".to_string()]
    );

    m.request_scene_change("Play");
    m.update(&mut ctx);
    assert_eq!(log.borrow().len(), 3);
    assert_eq!(m.get_active_scene().unwrap().name, "Play");
}

#[test]
fn add_scene_with_same_label_overwrites() {
    let log = Rc::new(RefCell::new(Vec::new()));
    let mut m: SceneManager<Ctx, Recorder> = SceneManager::new();
    let mut ctx = Ctx;

    let mut first = Recorder::new("first", Rc::clone(&log));
    first.update_calls = 7;
    m.add_scene("slot", first);
    let mut second = Recorder::new("second", Rc::clone(&log));
    second.update_calls = 9;
    m.add_scene("slot", second);

    m.request_scene_change("slot");
    m.update(&mut ctx);
    let active = m.get_active_scene().expect("a scene must be active");
    assert_eq!(active.name, "second");
    assert_eq!(active.update_calls, 9);
}

#[test]
fn update_active_reaches_only_the_active_scene() {
    let log = Rc::new(RefCell::new(Vec::new()));
    let mut m = manager_with(&["a", "b"], &log);
    let mut ctx = Ctx;

    m.update_active(16);
    assert!(m.get_active_scene().is_none());

    m.request_scene_change("a");
    m.update(&mut ctx);
    m.update_active(16);
    m.update_active(16);

    let active = m.get_active_scene().expect("a scene must be active");
    assert_eq!(active.update_calls, 2);
}
