use vstd::prelude::*;

use crate::input::{ExitSignal, InputEvent};

verus! {

/// The context a scene receives in its `init` and `draw` hooks.  The one
/// obligation is a well-formedness predicate: every hook receives a
/// well-formed context and must hand it back well-formed.  The engine's
/// graphics facade implements this; a plain placeholder context can
/// implement it with `true`, which lets scene logic be exercised without a
/// GPU device.
pub trait SceneContext {
    /// Well-formedness of the context.
    spec fn inv(&self) -> bool;
}

/// The functionality of one unit of application behaviour:
/// - `init`: called once per activation, before the scene's first frame, and
///   meant to allocate the required resources and run initialization logic;
/// - `input`: called with each input notification while the scene is active;
/// - `update`: called once per tick with the elapsed milliseconds; the
///   initialization flag belongs to `init` and `cleanup`, so `update` must
///   leave it alone;
/// - `draw`: called once per tick and may reconfigure the graphics context
///   (clear colour, further pipeline registration) for the next frame;
/// - `cleanup`: called once when a different scene becomes active, before
///   that scene's own `init`;
/// - `is_initialized`: whether `init` has already run.  `init` must set this
///   flag, and `cleanup` must leave it alone, so that reactivating a scene
///   does not run `init` a second time.
pub trait Scene<G: SceneContext>: Sized {
    /// Whether the scene has been initialized.
    spec fn initialized(&self) -> bool;

    fn is_initialized(&self) -> (r: bool)
        ensures
            r == self.initialized(),
    ;

    fn init(&mut self, graphics: &mut G)
        requires
            old(graphics).inv(),
        ensures
            final(graphics).inv(),
            final(self).initialized(),
    ;

    fn input(&mut self, event: &InputEvent, exit: &mut ExitSignal);

    fn update(&mut self, delta_ms: u32)
        ensures
            final(self).initialized() == old(self).initialized(),
    ;

    fn draw(&self, graphics: &mut G)
        requires
            old(graphics).inv(),
        ensures
            final(graphics).inv(),
    ;

    fn cleanup(&mut self)
        ensures
            final(self).initialized() == old(self).initialized(),
    ;
}

} // verus!
