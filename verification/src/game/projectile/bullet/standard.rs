use vstd::prelude::*;

use crate::game::handle::BodyHandle;
use crate::game::handle::ColliderHandle;
use crate::game::projectile::bullet::Bullet;

verus! {

/// The plain projectile: it flies straight on and never drops.
#[derive(Clone, Copy, Debug, PartialEq, Eq, Structural)]
pub struct Standard {
    pub damage: u32,
    pub body_handle: BodyHandle,
    pub collider_handle: ColliderHandle,
}

impl Bullet for Standard {
    fn damage(&self) {
    }

    fn should_drop(&self) -> (dropped: bool)
        ensures
            !dropped,
    {
        false
    }
}

} // verus!
