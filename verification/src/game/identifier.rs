use vstd::prelude::*;

use crate::game::bullet::BulletUserData;
use crate::game::enemy::baby::BabyIdentifier;

verus! {

/// What a simulated body belongs to: the kind of the entity and, inside
/// the kind's own data, the identity of the entity.
#[derive(Clone, Copy, Debug, PartialEq, Eq, Structural)]
pub enum KindIdentifier {
    Bullet(BulletUserData),
    Baby(BabyIdentifier),
}

/// The two registries of live entities.
#[derive(Clone, Copy, Debug, PartialEq, Eq, Structural)]
pub enum EntityKind {
    Bullet,
    Baby,
}

impl KindIdentifier {
    /// The identity that the identifier carries.
    pub open spec fn spec_uuid(self) -> u128 {
        match self {
            KindIdentifier::Bullet(data) => data.uuid,
            KindIdentifier::Baby(data) => data.uuid,
        }
    }

    /// The registry that the identified entity is kept in.
    pub open spec fn spec_kind(self) -> EntityKind {
        match self {
            KindIdentifier::Bullet(_) => EntityKind::Bullet,
            KindIdentifier::Baby(_) => EntityKind::Baby,
        }
    }

    pub fn uuid(&self) -> (id: u128)
        ensures
            id == self.spec_uuid(),
    {
        match self {
            KindIdentifier::Bullet(data) => data.uuid,
            KindIdentifier::Baby(data) => data.uuid,
        }
    }

    pub fn kind(&self) -> (kind: EntityKind)
        ensures
            kind == self.spec_kind(),
    {
        match self {
            KindIdentifier::Bullet(_) => EntityKind::Bullet,
            KindIdentifier::Baby(_) => EntityKind::Baby,
        }
    }
}

} // verus!
