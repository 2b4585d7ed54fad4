use vstd::prelude::*;

verus! {

/// The physical keys the engine core distinguishes.  The embedder translates
/// the host window system's key codes into this set; every other key maps to
/// `Other`.
#[derive(Clone, Copy, PartialEq, Eq, Structural, Debug)]
pub enum Key {
    ArrowUp,
    ArrowDown,
    ArrowLeft,
    ArrowRight,
    Escape,
    Other,
}

/// A discrete input notification forwarded to the active scene.  Pointer
/// events carry no payload here: the core passes them through without
/// reading them.
#[derive(Clone, Copy, PartialEq, Eq, Structural, Debug)]
pub enum InputEvent {
    Key { key: Key, pressed: bool },
    Pointer,
    Other,
}

/// The cancellation capability handed to a scene's `input` hook: a scene may
/// request that the engine loop terminate (for example on an escape key).
pub struct ExitSignal {
    requested: bool,
}

impl ExitSignal {
    /// Whether termination of the engine loop has been requested.
    pub closed spec fn requested(&self) -> bool {
        self.requested
    }

    pub fn new() -> (r: ExitSignal)
        ensures
            !r.requested(),
    {
        ExitSignal { requested: false }
    }

    /// Ask the engine loop to terminate before the next tick.
    pub fn request(&mut self)
        ensures
            final(self).requested(),
    {
        self.requested = true;
    }

    pub fn is_requested(&self) -> (r: bool)
        ensures
            r == self.requested(),
    {
        self.requested
    }
}

} // verus!
