use vstd::prelude::*;

use crate::game::handle::BodyHandle;
use crate::game::identifier::EntityKind;
use crate::game::identifier::KindIdentifier;

verus! {

/// What the simulation reports of two bodies after a step: that they
/// began to touch, or that they ceased to.
#[derive(Clone, Copy, Debug, PartialEq, Eq, Structural)]
pub enum ContactEvent {
    Started(BodyHandle, BodyHandle),
    Stopped(BodyHandle, BodyHandle),
}

/// A bullet that met a baby.
#[derive(Clone, Copy, Debug, PartialEq, Eq, Structural)]
pub struct Hit {
    pub bullet: u128,
    pub baby: u128,
}

impl ContactEvent {
    /// The event with its two bodies in the other order.
    pub open spec fn spec_mirrored(self) -> ContactEvent {
        match self {
            ContactEvent::Started(first, second) => ContactEvent::Started(second, first),
            ContactEvent::Stopped(first, second) => ContactEvent::Stopped(second, first),
        }
    }
}

impl Hit {
    /// The identity of the entity of the given kind that took part.
    pub open spec fn spec_uuid(self, kind: EntityKind) -> u128 {
        match kind {
            EntityKind::Bullet => self.bullet,
            EntityKind::Baby => self.baby,
        }
    }

    pub fn uuid(&self, kind: EntityKind) -> (id: u128)
        ensures
            id == self.spec_uuid(kind),
    {
        match kind {
            EntityKind::Bullet => self.bullet,
            EntityKind::Baby => self.baby,
        }
    }
}

/// Whether two runs of events report the same contacts, event by event,
/// but for the order in which an event names its two bodies.
pub open spec fn spec_same_contacts(events: Seq<ContactEvent>, others: Seq<ContactEvent>) -> bool {
    &&& others.len() == events.len()
    &&& forall|i: int|
        0 <= i < events.len() ==> others[i] == events[i] || others[i] == events[i].spec_mirrored()
}

/// The hit that two touching bodies make, given what each of them
/// carries: one when one is a bullet and the other a baby, in either
/// order, and none otherwise.
pub open spec fn spec_classify(first: Option<KindIdentifier>, second: Option<KindIdentifier>) -> Option<Hit> {
    match (first, second) {
        (Some(KindIdentifier::Bullet(bullet)), Some(KindIdentifier::Baby(baby))) => Some(
            Hit { bullet: bullet.uuid, baby: baby.uuid },
        ),
        (Some(KindIdentifier::Baby(baby)), Some(KindIdentifier::Bullet(bullet))) => Some(
            Hit { bullet: bullet.uuid, baby: baby.uuid },
        ),
        _ => None,
    }
}

/// Classifies a pair of touching bodies by what they carry.
pub fn classify(first: Option<KindIdentifier>, second: Option<KindIdentifier>) -> (hit: Option<Hit>)
    ensures
        hit == spec_classify(first, second),
{
    match (first, second) {
        (Some(KindIdentifier::Bullet(bullet)), Some(KindIdentifier::Baby(baby))) => Some(
            Hit { bullet: bullet.uuid, baby: baby.uuid },
        ),
        (Some(KindIdentifier::Baby(baby)), Some(KindIdentifier::Bullet(bullet))) => Some(
            Hit { bullet: bullet.uuid, baby: baby.uuid },
        ),
        _ => None,
    }
}

/// The order of the two bodies in a pair does not matter to its
/// classification.
pub proof fn lemma_classification_is_symmetric(first: Option<KindIdentifier>, second: Option<KindIdentifier>)
    ensures
        spec_classify(first, second) == spec_classify(second, first),
{
}

} // verus!
