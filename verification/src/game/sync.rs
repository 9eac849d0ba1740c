use vstd::prelude::*;

use crate::game::handle::BodyHandle;

verus! {

/// One step of the visual sync: copy the pose of a simulated body to a
/// sprite. The position is always copied; the rotation only where
/// `rotate` is set, converted to the scene's angle unit. Where the body
/// or the sprite no longer exists the order has no effect.
#[derive(Clone, Copy, Debug, PartialEq, Eq, Structural)]
pub struct SyncOrder {
    pub sprite_uuid: u128,
    pub body_handle: BodyHandle,
    pub rotate: bool,
}

/// Where something is and how it is turned. The library never computes
/// with either part, so both types are left open.
pub struct Pose<P, R> {
    pub position: P,
    pub rotation: R,
}

impl SyncOrder {
    /// The scene after the order has been carried out, given the poses of
    /// the bodies that the simulation holds and the conversion from the
    /// simulation's angle unit to the scene's.
    pub open spec fn carried_out<P, R>(
        self,
        bodies: Map<BodyHandle, Pose<P, R>>,
        to_scene_unit: spec_fn(R) -> R,
        scene: Map<u128, Pose<P, R>>,
    ) -> Map<u128, Pose<P, R>> {
        if scene.contains_key(self.sprite_uuid) && bodies.contains_key(self.body_handle) {
            let body = bodies[self.body_handle];
            let rotation = if self.rotate {
                to_scene_unit(body.rotation)
            } else {
                scene[self.sprite_uuid].rotation
            };
            scene.insert(self.sprite_uuid, Pose { position: body.position, rotation })
        } else {
            scene
        }
    }
}

/// Carrying out an order a second time, with no simulation step in
/// between, leaves the scene as the first time left it.
pub proof fn lemma_sync_is_idempotent<P, R>(
    order: SyncOrder,
    bodies: Map<BodyHandle, Pose<P, R>>,
    to_scene_unit: spec_fn(R) -> R,
    scene: Map<u128, Pose<P, R>>,
)
    ensures
        order.carried_out(bodies, to_scene_unit, order.carried_out(bodies, to_scene_unit, scene))
            == order.carried_out(bodies, to_scene_unit, scene),
{
    let once = order.carried_out(bodies, to_scene_unit, scene);
    let twice = order.carried_out(bodies, to_scene_unit, once);
    assert(twice =~= once);
}

/// An order against a body that the simulation no longer holds changes
/// nothing in the scene.
pub proof fn lemma_sync_of_missing_body_is_noop<P, R>(
    order: SyncOrder,
    bodies: Map<BodyHandle, Pose<P, R>>,
    to_scene_unit: spec_fn(R) -> R,
    scene: Map<u128, Pose<P, R>>,
)
    requires
        !bodies.contains_key(order.body_handle),
    ensures
        order.carried_out(bodies, to_scene_unit, scene) == scene,
{
}

} // verus!
