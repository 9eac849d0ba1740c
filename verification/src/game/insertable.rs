use vstd::prelude::*;

use crate::game::handle::BodyHandle;
use crate::game::handle::ColliderHandle;
use crate::game::identifier::KindIdentifier;
use crate::game::sync::SyncOrder;

verus! {

/// The physical half of an entity that is not yet in the simulation: the
/// body, the identifier that the body carries, and the collider
/// description of a body that collides. `B` and `C` are the simulation's
/// own types for a body and for a collider description.
pub struct PhysicsInsertable<B, C> {
    rigid_body: B,
    identifier: KindIdentifier,
    collider_desc: Option<C>,
}

impl<B, C> PhysicsInsertable<B, C> {
    pub closed spec fn spec_rigid_body(self) -> B {
        self.rigid_body
    }

    pub closed spec fn spec_identifier(self) -> KindIdentifier {
        self.identifier
    }

    pub closed spec fn spec_collider_desc(self) -> Option<C> {
        self.collider_desc
    }

    pub(crate) fn new(rigid_body: B, identifier: KindIdentifier, collider_desc: Option<C>) -> (insertable: Self)
        ensures
            insertable.spec_rigid_body() == rigid_body,
            insertable.spec_identifier() == identifier,
            insertable.spec_collider_desc() == collider_desc,
    {
        PhysicsInsertable { rigid_body, identifier, collider_desc }
    }

    /// The identifier that the body carries.
    pub fn identifier(&self) -> (identifier: KindIdentifier)
        ensures
            identifier == self.spec_identifier(),
    {
        self.identifier
    }

    /// Takes the value apart for insertion. Nothing of it is left behind.
    pub fn parts(self) -> (parts: (B, KindIdentifier, Option<C>))
        ensures
            parts.0 == self.spec_rigid_body(),
            parts.1 == self.spec_identifier(),
            parts.2 == self.spec_collider_desc(),
    {
        (self.rigid_body, self.identifier, self.collider_desc)
    }
}

/// The handles that the simulation gave out for one entity.
#[derive(Clone, Copy, Debug, PartialEq, Eq, Structural)]
pub struct PhysicsInserted {
    pub body_handle: BodyHandle,
    pub collider_handle: Option<ColliderHandle>,
}

impl PhysicsInserted {
    pub fn new(body_handle: BodyHandle, collider_handle: Option<ColliderHandle>) -> (inserted: PhysicsInserted)
        ensures
            inserted == (PhysicsInserted { body_handle, collider_handle }),
    {
        PhysicsInserted { body_handle, collider_handle }
    }

    pub(crate) fn get_body_handle(&self) -> (handle: BodyHandle)
        ensures
            handle == self.body_handle,
    {
        self.body_handle
    }
}

/// An entity that is fully described and not yet admitted: the texture of
/// its sprite and its physical half. `T` is the scene's own type for a
/// texture.
pub struct Insertable<T, B, C> {
    texture: T,
    physics_insertable: PhysicsInsertable<B, C>,
}

impl<T, B, C> Insertable<T, B, C> {
    pub closed spec fn spec_texture(self) -> T {
        self.texture
    }

    pub closed spec fn spec_physics_insertable(self) -> PhysicsInsertable<B, C> {
        self.physics_insertable
    }

    pub fn new(texture: T, rigid_body: B, identifier: KindIdentifier, collider_desc: Option<C>) -> (insertable: Self)
        ensures
            insertable.spec_texture() == texture,
            insertable.spec_physics_insertable().spec_rigid_body() == rigid_body,
            insertable.spec_physics_insertable().spec_identifier() == identifier,
            insertable.spec_physics_insertable().spec_collider_desc() == collider_desc,
    {
        let physics_insertable = PhysicsInsertable::new(rigid_body, identifier, collider_desc);
        Insertable { texture, physics_insertable }
    }

    /// The identifier that the entity's body carries.
    pub fn identifier(&self) -> (identifier: KindIdentifier)
        ensures
            identifier == self.spec_physics_insertable().spec_identifier(),
    {
        self.physics_insertable.identifier()
    }

    /// Takes the value apart into the texture, the body, the body's
    /// identifier and the collider description.
    pub fn get_parts(self) -> (parts: (T, B, KindIdentifier, Option<C>))
        ensures
            parts.0 == self.spec_texture(),
            parts.1 == self.spec_physics_insertable().spec_rigid_body(),
            parts.2 == self.spec_physics_insertable().spec_identifier(),
            parts.3 == self.spec_physics_insertable().spec_collider_desc(),
    {
        let (rigid_body, identifier, collider_desc) = self.physics_insertable.parts();
        (self.texture, rigid_body, identifier, collider_desc)
    }

    /// Takes the value apart into the texture and the physical half.
    pub fn get_parts_insertable(self) -> (parts: (T, PhysicsInsertable<B, C>))
        ensures
            parts.0 == self.spec_texture(),
            parts.1 == self.spec_physics_insertable(),
    {
        (self.texture, self.physics_insertable)
    }
}

/// The handle bundle of a live entity: the id of its sprite in the scene
/// and its handles in the simulation.
#[derive(Clone, Copy, Debug, PartialEq, Eq, Structural)]
pub struct Inserted {
    pub sprite_uuid: u128,
    pub physics_inserted: PhysicsInserted,
}

impl Inserted {
    pub fn new(sprite_uuid: u128, body_handle: BodyHandle, collider_handle: Option<ColliderHandle>) -> (inserted: Inserted)
        ensures
            inserted == (Inserted {
                sprite_uuid,
                physics_inserted: PhysicsInserted { body_handle, collider_handle },
            }),
    {
        let physics_inserted = PhysicsInserted::new(body_handle, collider_handle);
        Inserted { sprite_uuid, physics_inserted }
    }

    pub fn new_from_physics(sprite_uuid: u128, physics_inserted: PhysicsInserted) -> (inserted: Inserted)
        ensures
            inserted == (Inserted { sprite_uuid, physics_inserted }),
    {
        Inserted { sprite_uuid, physics_inserted }
    }

    pub open spec fn spec_body_handle(self) -> BodyHandle {
        self.physics_inserted.body_handle
    }

    /// The order that brings the entity's sprite up to date.
    pub open spec fn spec_sync(self, rotate: bool) -> SyncOrder {
        SyncOrder { sprite_uuid: self.sprite_uuid, body_handle: self.spec_body_handle(), rotate }
    }

    pub fn get_sprite_uuid(&self) -> (id: u128)
        ensures
            id == self.sprite_uuid,
    {
        self.sprite_uuid
    }

    pub fn get_body_handle(&self) -> (handle: BodyHandle)
        ensures
            handle == self.spec_body_handle(),
    {
        self.physics_inserted.get_body_handle()
    }

    pub(crate) fn sync(&self, rotate: bool) -> (order: SyncOrder)
        ensures
            order == self.spec_sync(rotate),
    {
        SyncOrder {
            sprite_uuid: self.sprite_uuid,
            body_handle: self.physics_inserted.body_handle,
            rotate,
        }
    }
}

/// A live entity that is a simulated body with a sprite.
pub trait InsertedBody {
    /// The entity's handle bundle.
    spec fn spec_inserted(&self) -> Inserted;

    /// Whether the sprite turns with the body.
    spec fn spec_rotates(&self) -> bool;

    /// The order that brings the entity's sprite up to date with its body.
    fn update(&self) -> (order: SyncOrder)
        ensures
            order == self.spec_inserted().spec_sync(self.spec_rotates()),
    ;

    fn get_body_handle(&self) -> (handle: BodyHandle)
        ensures
            handle == self.spec_inserted().spec_body_handle(),
    ;

    fn get_sprite_uuid(&self) -> (id: u128)
        ensures
            id == self.spec_inserted().sprite_uuid,
    ;
}

} // verus!
