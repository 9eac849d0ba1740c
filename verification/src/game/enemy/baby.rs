use vstd::prelude::*;

use crate::game::enemy::Enemy;
use crate::game::handle::BodyHandle;
use crate::game::handle::ColliderHandle;
use crate::game::identifier::KindIdentifier;
use crate::game::identity::is_random_uuid;
use crate::game::identity::new_uuid;
use crate::game::insertable::Insertable;
use crate::game::insertable::Inserted;
use crate::game::insertable::PhysicsInserted;
use crate::game::sync::SyncOrder;

verus! {

/// Health that a baby starts with.
pub const BABY_HEALTH: u32 = 32;

/// What the body of a baby carries: its identity.
#[derive(Clone, Copy, Debug, PartialEq, Eq, Structural)]
pub struct BabyIdentifier {
    pub uuid: u128,
}

/// A baby that lives in the simulation and the scene.
#[derive(Clone, Copy, Debug, PartialEq, Eq, Structural)]
pub struct InsertedBaby {
    pub inserted: Inserted,
    pub health: u32,
}

impl InsertedBaby {
    pub fn get_body_handle(&self) -> (handle: BodyHandle)
        ensures
            handle == self.inserted.spec_body_handle(),
    {
        self.inserted.get_body_handle()
    }

    pub fn get_sprite_uuid(&self) -> (id: u128)
        ensures
            id == self.inserted.sprite_uuid,
    {
        self.inserted.get_sprite_uuid()
    }

    /// The order that brings the baby's sprite up to date with its body.
    /// The sprite follows the body's position and keeps its own rotation.
    pub fn update(&self) -> (order: SyncOrder)
        ensures
            order == self.inserted.spec_sync(false),
    {
        self.inserted.sync(false)
    }

    pub fn new(sprite_uuid: u128, body_handle: BodyHandle, collider_handle: Option<ColliderHandle>) -> (baby: Self)
        ensures
            baby == InsertedBaby::spec_from_inserted(
                Inserted { sprite_uuid, physics_inserted: PhysicsInserted { body_handle, collider_handle } },
            ),
    {
        let inserted = Inserted::new(sprite_uuid, body_handle, collider_handle);
        InsertedBaby { inserted, health: BABY_HEALTH }
    }

    /// A baby at full health with the given handle bundle.
    pub open spec fn spec_from_inserted(inserted: Inserted) -> InsertedBaby {
        InsertedBaby { inserted, health: BABY_HEALTH }
    }

    pub fn from_inserted(inserted: Inserted) -> (baby: Self)
        ensures
            baby == InsertedBaby::spec_from_inserted(inserted),
    {
        InsertedBaby { inserted, health: BABY_HEALTH }
    }
}

impl BabyIdentifier {
    /// Stages a baby under a new random identity and returns it with that
    /// identity. The caller has built the texture, the body and the
    /// collider description.
    pub fn generate_insertable<T, B, C>(texture: T, rigid_body: B, collider_desc: C) -> (generated: (
        Insertable<T, B, C>,
        u128,
    ))
        ensures
            is_random_uuid(generated.1),
            generated.0.spec_texture() == texture,
            generated.0.spec_physics_insertable().spec_rigid_body() == rigid_body,
            generated.0.spec_physics_insertable().spec_identifier() == KindIdentifier::Baby(
                BabyIdentifier { uuid: generated.1 },
            ),
            generated.0.spec_physics_insertable().spec_collider_desc() == Some(collider_desc),
    {
        let baby_uuid: u128 = new_uuid();
        let insertable = BabyIdentifier::insertable_with_uuid(baby_uuid, texture, rigid_body, collider_desc);
        (insertable, baby_uuid)
    }

    /// Stages a baby under the given identity.
    pub fn insertable_with_uuid<T, B, C>(
        baby_uuid: u128,
        texture: T,
        rigid_body: B,
        collider_desc: C,
    ) -> (insertable: Insertable<T, B, C>)
        ensures
            insertable.spec_texture() == texture,
            insertable.spec_physics_insertable().spec_rigid_body() == rigid_body,
            insertable.spec_physics_insertable().spec_identifier() == KindIdentifier::Baby(
                BabyIdentifier { uuid: baby_uuid },
            ),
            insertable.spec_physics_insertable().spec_collider_desc() == Some(collider_desc),
    {
        let identifier = BabyIdentifier { uuid: baby_uuid };
        Insertable::new(texture, rigid_body, KindIdentifier::Baby(identifier), Some(collider_desc))
    }
}

impl Enemy for InsertedBaby {
    fn spawn() {
    }
}

} // verus!
