use vstd::prelude::*;

use crate::gpu;
use crate::graphics::Graphics;
use crate::input::{ExitSignal, InputEvent, Key};
use crate::scene::Scene;

verus! {

/// The concrete gameplay scene: it marks itself initialized once, asks the
/// engine loop to terminate when escape is pressed, and configures a black
/// clear colour for the next frame.
pub struct GamePlay {
    initialized: bool,
}

impl GamePlay {
    pub fn new() -> (r: GamePlay)
        ensures
            !r.initialized(),
    {
        GamePlay { initialized: false }
    }
}

impl Scene<Graphics> for GamePlay {
    closed spec fn initialized(&self) -> bool {
        self.initialized
    }

    fn is_initialized(&self) -> (r: bool) {
        self.initialized
    }

    fn init(&mut self, _graphics: &mut Graphics) {
        self.initialized = true;
    }

    fn input(&mut self, event: &InputEvent, exit: &mut ExitSignal)
        ensures
            final(exit).requested() == (old(exit).requested() || *event == (InputEvent::Key {
                key: Key::Escape,
                pressed: true,
            })),
            *final(self) == *old(self),
    {
        match event {
            InputEvent::Key { key: Key::Escape, pressed: true } => {
                exit.request();
            },
            _ => {},
        }
    }

    fn update(&mut self, _delta_ms: u32) {
    }

    fn draw(&self, graphics: &mut Graphics) {
        graphics.set_clear_color(gpu::color_black());
    }

    fn cleanup(&mut self) {
    }
}

/// The top-level game states; each knows how to build its scene.
pub enum GameState {
    GamePlay,
}

impl GameState {
    /// Builds the scene for this game state, not yet initialized.
    pub fn init(&self) -> (r: GamePlay)
        ensures
            !r.initialized(),
    {
        match self {
            GameState::GamePlay => GamePlay::new(),
        }
    }
}

} // verus!
