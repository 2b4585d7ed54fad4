use vstd::prelude::*;

use crate::gpu::SurfaceStatus;
use crate::graphics::{Graphics, RenderError};
use crate::scene::Scene;
use crate::scene_manager::{reconcile_calls, reconcile_transition, LifecycleCall, SceneManager};

verus! {

/// One tick of the engine loop, in the fixed per-frame order: upload the
/// camera uniform first (so no stale camera data is ever rendered), apply
/// any pending scene transition, advance the active scene by the elapsed
/// milliseconds, render the frame over all registered pipelines, and
/// finally let the active scene configure the graphics for the next frame.
///
/// The camera payload is derived by the embedder from its camera state;
/// its length must match the camera buffer.  The tick reconciles the scene
/// lifecycle exactly once, and a frame whose surface turned out to be
/// outdated is skipped silently.
pub fn frame_tick<S: Scene<Graphics>>(
    manager: &mut SceneManager<Graphics, S>,
    graphics: &mut Graphics,
    camera_uniform: &[u8],
    delta_ms: u32,
) -> (r: Result<(), RenderError>)
    requires
        old(manager).wf(),
        old(graphics).wf(),
        camera_uniform@.len() == old(graphics).camera_len(),
    ensures
        final(manager).wf(),
        final(graphics).wf(),
        final(manager).lifecycle() == reconcile_transition(old(manager).lifecycle()),
        final(manager).next() is None,
        final(manager).active() == (if old(manager).next() is Some {
            old(manager).next()
        } else {
            old(manager).active()
        }),
        forall|m: Seq<char>| final(manager).has_scene(m) == old(manager).has_scene(m),
        forall|m: Seq<char>|
            old(manager).has_scene(m) && Some(m) != old(manager).active() && Some(m) != old(
                manager,
            ).next() ==> final(manager).scene_of(m) == old(manager).scene_of(m),
        final(manager).calls() == old(manager).calls() + (match old(manager).next() {
            Some(l) => reconcile_calls(
                old(manager).active(),
                l,
                old(manager).scene_of(l).initialized(),
            ),
            None => Seq::<LifecycleCall>::empty(),
        }),
        r matches Err(e) ==> (e == RenderError::Acquire(SurfaceStatus::Timeout) || e
            == RenderError::Acquire(SurfaceStatus::OutOfMemory)),
{
    let ghost mgr0 = *manager;
    graphics.write_camera_uniform(camera_uniform);
    manager.update(graphics);
    let ghost mgr1 = *manager;
    manager.update_active(delta_ms);
    proof {
        assert forall|m: Seq<char>|
            mgr0.has_scene(m) && Some(m) != mgr0.active() && Some(m) != mgr0.next() implies manager
            .scene_of(m) == mgr0.scene_of(m) by {
            assert(mgr1.scene_of(m) == mgr0.scene_of(m));
            assert(manager.scene_of(m) == mgr1.scene_of(m));
        }
    }
    let r = graphics.render();
    manager.draw_active(graphics);
    r
}

} // verus!
