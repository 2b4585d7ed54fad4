use vstd::prelude::*;

use crate::input::Key;

verus! {

/// Tracks which movement keys are currently held.  An external controller
/// owned by the embedder turns these held directions into incremental
/// eye-position changes once per frame; the floating-point movement
/// mathematics live there, while this type holds the discrete key state.
pub struct CameraController {
    forward: bool,
    backwards: bool,
    left: bool,
    right: bool,
}

impl CameraController {
    /// Whether the forward key is held.
    pub closed spec fn forward(&self) -> bool {
        self.forward
    }

    /// Whether the backwards key is held.
    pub closed spec fn backwards(&self) -> bool {
        self.backwards
    }

    /// Whether the left key is held.
    pub closed spec fn left(&self) -> bool {
        self.left
    }

    /// Whether the right key is held.
    pub closed spec fn right(&self) -> bool {
        self.right
    }

    pub fn new() -> (r: CameraController)
        ensures
            !r.forward(),
            !r.backwards(),
            !r.left(),
            !r.right(),
    {
        CameraController { forward: false, backwards: false, left: false, right: false }
    }

    /// Record a key transition.  An arrow key sets or clears the matching
    /// held-direction flag and is reported as handled; every other key
    /// leaves the state unchanged.
    pub fn process_events(&mut self, key: Key, pressed: bool) -> (handled: bool)
        ensures
            handled == (key == Key::ArrowUp || key == Key::ArrowDown || key == Key::ArrowLeft
                || key == Key::ArrowRight),
            final(self).forward() == (if key == Key::ArrowUp { pressed } else { old(self).forward() }),
            final(self).backwards() == (if key == Key::ArrowDown { pressed } else { old(self).backwards() }),
            final(self).left() == (if key == Key::ArrowLeft { pressed } else { old(self).left() }),
            final(self).right() == (if key == Key::ArrowRight { pressed } else { old(self).right() }),
    {
        match key {
            Key::ArrowUp => {
                self.forward = pressed;
                true
            },
            Key::ArrowDown => {
                self.backwards = pressed;
                true
            },
            Key::ArrowLeft => {
                self.left = pressed;
                true
            },
            Key::ArrowRight => {
                self.right = pressed;
                true
            },
            _ => false,
        }
    }

    pub fn is_forward(&self) -> (r: bool)
        ensures
            r == self.forward(),
    {
        self.forward
    }

    pub fn is_backwards(&self) -> (r: bool)
        ensures
            r == self.backwards(),
    {
        self.backwards
    }

    pub fn is_left(&self) -> (r: bool)
        ensures
            r == self.left(),
    {
        self.left
    }

    pub fn is_right(&self) -> (r: bool)
        ensures
            r == self.right(),
    {
        self.right
    }
}

} // verus!
