use vstd::prelude::*;

use crate::game::handle::BodyHandle;
use crate::game::identifier::KindIdentifier;
use crate::game::identity::is_random_uuid;
use crate::game::identity::new_uuid;
use crate::game::insertable::Insertable;
use crate::game::insertable::Inserted;
use crate::game::insertable::InsertedBody;
use crate::game::sync::SyncOrder;

verus! {

/// Damage that a bullet deals.
pub const BULLET_DAMAGE: u32 = 100;

/// What the body of a bullet carries: its damage and its identity.
#[derive(Clone, Copy, Debug, PartialEq, Eq, Structural)]
pub struct BulletUserData {
    pub damage: u32,
    pub uuid: u128,
}

/// A bullet that lives in the simulation and the scene.
#[derive(Clone, Copy, Debug, PartialEq, Eq, Structural)]
pub struct InsertedBullet {
    pub inserted: Inserted,
}

impl BulletUserData {
    /// Stages a bullet under a new random identity and returns it with
    /// that identity. The caller has built the texture, the body and the
    /// collider description from where and in which direction the bullet
    /// is fired.
    pub fn generate_insertable<T, B, C>(texture: T, rigid_body: B, collider_desc: C) -> (generated: (
        Insertable<T, B, C>,
        u128,
    ))
        ensures
            is_random_uuid(generated.1),
            generated.0.spec_texture() == texture,
            generated.0.spec_physics_insertable().spec_rigid_body() == rigid_body,
            generated.0.spec_physics_insertable().spec_identifier() == KindIdentifier::Bullet(
                BulletUserData { damage: BULLET_DAMAGE, uuid: generated.1 },
            ),
            generated.0.spec_physics_insertable().spec_collider_desc() == Some(collider_desc),
    {
        let bullet_uuid: u128 = new_uuid();
        let insertable = BulletUserData::insertable_with_uuid(
            bullet_uuid,
            texture,
            rigid_body,
            collider_desc,
        );
        (insertable, bullet_uuid)
    }

    /// Stages a bullet under the given identity.
    pub fn insertable_with_uuid<T, B, C>(
        bullet_uuid: u128,
        texture: T,
        rigid_body: B,
        collider_desc: C,
    ) -> (insertable: Insertable<T, B, C>)
        ensures
            insertable.spec_texture() == texture,
            insertable.spec_physics_insertable().spec_rigid_body() == rigid_body,
            insertable.spec_physics_insertable().spec_identifier() == KindIdentifier::Bullet(
                BulletUserData { damage: BULLET_DAMAGE, uuid: bullet_uuid },
            ),
            insertable.spec_physics_insertable().spec_collider_desc() == Some(collider_desc),
    {
        let user_data = BulletUserData { damage: BULLET_DAMAGE, uuid: bullet_uuid };
        Insertable::new(texture, rigid_body, KindIdentifier::Bullet(user_data), Some(collider_desc))
    }
}

impl InsertedBullet {
    pub fn new(inserted: Inserted) -> (bullet: Self)
        ensures
            bullet == (InsertedBullet { inserted }),
    {
        InsertedBullet { inserted }
    }
}

impl InsertedBody for InsertedBullet {
    open spec fn spec_inserted(&self) -> Inserted {
        self.inserted
    }

    /// A bullet's sprite points where the bullet flies.
    open spec fn spec_rotates(&self) -> bool {
        true
    }

    fn update(&self) -> (order: SyncOrder) {
        self.inserted.sync(true)
    }

    fn get_body_handle(&self) -> (handle: BodyHandle) {
        self.inserted.get_body_handle()
    }

    fn get_sprite_uuid(&self) -> (id: u128) {
        self.inserted.get_sprite_uuid()
    }
}

} // verus!
