use vstd::prelude::*;
use std::collections::HashMap;
use std::collections::HashSet;

use crate::game::bullet::InsertedBullet;
use crate::game::contact::ContactEvent;
use crate::game::enemy::baby::InsertedBaby;
use crate::game::handle::lemma_key_is_injective;
use crate::game::handle::BodyHandle;
use crate::game::handle::ColliderHandle;
use crate::game::identifier::EntityKind;
use crate::game::identifier::KindIdentifier;
use crate::game::input::Button;
use crate::game::input::ButtonArgs;
use crate::game::input::ButtonState;
use crate::game::input::InputAction;
use crate::game::input::MouseButton;
use crate::game::insertable::Inserted;
use crate::game::insertable::PhysicsInserted;
use crate::game::player::character::Character;
use crate::game::player::character::Impulse;
use crate::game::sync::SyncOrder;
use vstd::std_specs::iter::IteratorSpec;

verus! {

broadcast use vstd::std_specs::hash::group_hash_axioms;

/// What is left to do outside the registry when an entity has been
/// removed from it: delete the collider, if it has one, and the body
/// from the simulation, and the sprite from the scene. All belong to one
/// removal and are carried out together.
#[derive(Clone, Copy, Debug, PartialEq, Eq, Structural)]
pub struct Teardown {
    pub body_handle: BodyHandle,
    pub collider_handle: Option<ColliderHandle>,
    pub sprite_uuid: u128,
}

impl Teardown {
    /// The teardown of the entity with the given handle bundle.
    pub open spec fn spec_of(inserted: Inserted) -> Teardown {
        Teardown {
            body_handle: inserted.physics_inserted.body_handle,
            collider_handle: inserted.physics_inserted.collider_handle,
            sprite_uuid: inserted.sprite_uuid,
        }
    }

    pub fn of(inserted: Inserted) -> (teardown: Teardown)
        ensures
            teardown == Teardown::spec_of(inserted),
    {
        Teardown {
            body_handle: inserted.physics_inserted.body_handle,
            collider_handle: inserted.physics_inserted.collider_handle,
            sprite_uuid: inserted.sprite_uuid,
        }
    }
}

/// Why the registry did not admit an entity.
#[derive(Clone, Copy, Debug, PartialEq, Eq, Structural)]
pub enum AdmissionError {
    /// A live entity of the same kind has the same identity.
    IdentityTaken,
    /// A live entity has the same body handle.
    BodyTaken,
}

/// What one update asks the caller to carry out, in this order: the
/// impulses on the player's body, the sync of the player's sprite, the
/// syncs of the bullets' and of the babies' sprites, and last the
/// teardowns of what the step's contacts removed.
#[derive(Debug)]
pub struct FramePlan {
    pub impulses: Vec<Impulse>,
    pub player_sync: SyncOrder,
    pub bullet_syncs: Vec<SyncOrder>,
    pub baby_syncs: Vec<SyncOrder>,
    pub teardowns: Vec<Teardown>,
}

/// The registry of what lives in the game: the player, the bullets and
/// the babies by identity, what each body carries, and the keys that are
/// held down.
pub struct World {
    character: Character,
    babies: HashMap<u128, InsertedBaby>,
    bullets: HashMap<u128, InsertedBullet>,
    tags: HashMap<u128, KindIdentifier>,
    keys_pressed: HashSet<u32>,
}

impl World {
    /// The player.
    pub closed spec fn spec_character(&self) -> Character {
        self.character
    }

    /// The live bullets by identity.
    pub closed spec fn spec_bullets(&self) -> Map<u128, InsertedBullet> {
        self.bullets@
    }

    /// The live babies by identity.
    pub closed spec fn spec_babies(&self) -> Map<u128, InsertedBaby> {
        self.babies@
    }

    /// The keys that are held down, by key code.
    pub closed spec fn spec_keys_pressed(&self) -> Set<u32> {
        self.keys_pressed@
    }

    /// What the body behind a handle carries, if the registry knows the
    /// body.
    pub closed spec fn spec_resolve(&self, handle: BodyHandle) -> Option<KindIdentifier> {
        if self.tags@.contains_key(handle.spec_key()) {
            Some(self.tags@[handle.spec_key()])
        } else {
            None
        }
    }

    /// Whether an entity of the given kind lives under the identity.
    pub open spec fn spec_contains(&self, kind: EntityKind, uuid: u128) -> bool {
        match kind {
            EntityKind::Bullet => self.spec_bullets().contains_key(uuid),
            EntityKind::Baby => self.spec_babies().contains_key(uuid),
        }
    }

    /// The handle bundle of the entity of the given kind and identity.
    pub open spec fn spec_inserted(&self, kind: EntityKind, uuid: u128) -> Inserted {
        match kind {
            EntityKind::Bullet => self.spec_bullets()[uuid].inserted,
            EntityKind::Baby => self.spec_babies()[uuid].inserted,
        }
    }

    /// What removing the entity of the given kind and identity leaves to
    /// do, if there is such an entity.
    pub open spec fn spec_teardown(&self, kind: EntityKind, uuid: u128) -> Option<Teardown> {
        if self.spec_contains(kind, uuid) {
            Some(Teardown::spec_of(self.spec_inserted(kind, uuid)))
        } else {
            None
        }
    }

    /// Whether the entity that an identifier names is live and has the
    /// given body.
    pub open spec fn spec_holds(&self, identifier: KindIdentifier, handle: BodyHandle) -> bool {
        &&& self.spec_contains(identifier.spec_kind(), identifier.spec_uuid())
        &&& self.spec_inserted(identifier.spec_kind(), identifier.spec_uuid()).spec_body_handle() == handle
    }

    /// The registry's invariant: the body of every live entity carries an
    /// identifier of the entity's kind and identity, and every
    /// identifier that a body carries names a live entity with that body.
    pub open spec fn wf(&self) -> bool {
        &&& forall|kind: EntityKind, uuid: u128| #[trigger]
            self.spec_contains(kind, uuid) ==> {
                &&& self.spec_resolve(self.spec_inserted(kind, uuid).spec_body_handle())
                    matches Some(identifier)
                &&& identifier.spec_kind() == kind
                &&& identifier.spec_uuid() == uuid
            }
        &&& forall|handle: BodyHandle| (#[trigger] self.spec_resolve(handle)) matches Some(identifier)
                ==> self.spec_holds(identifier, handle)
    }

    /// Whether two registries hold the same player and entities.
    pub open spec fn spec_same_entities(&self, other: &World) -> bool {
        &&& self.spec_character() == other.spec_character()
        &&& self.spec_bullets() == other.spec_bullets()
        &&& self.spec_babies() == other.spec_babies()
        &&& forall|handle: BodyHandle| self.spec_resolve(handle) == other.spec_resolve(handle)
    }

    /// A registry with the given player, no other entity and no key held
    /// down.
    pub fn new(character: Character) -> (world: World)
        ensures
            world.wf(),
            world.spec_character() == character,
            world.spec_bullets() == Map::<u128, InsertedBullet>::empty(),
            world.spec_babies() == Map::<u128, InsertedBaby>::empty(),
            world.spec_keys_pressed() == Set::<u32>::empty(),
            forall|handle: BodyHandle| world.spec_resolve(handle) is None,
    {
        World {
            character,
            babies: HashMap::new(),
            bullets: HashMap::new(),
            tags: HashMap::new(),
            keys_pressed: HashSet::new(),
        }
    }

    /// Takes in a button event: a key that goes down joins the pressed
    /// keys, a key that comes up leaves them, and the left mouse button
    /// going down asks the caller to fire. Nothing else changes.
    pub fn handle_button_event(&mut self, key: ButtonArgs) -> (action: InputAction)
        ensures
            action == key.spec_action(),
            final(self).spec_keys_pressed() == key.spec_keys_after(old(self).spec_keys_pressed()),
            final(self).spec_same_entities(old(self)),
            old(self).wf() ==> final(self).wf(),
    {
        let mut action = InputAction::Idle;
        match key.state {
            ButtonState::Press => match key.button {
                Button::Keyboard(code) => {
                    self.keys_pressed.insert(code);
                },
                Button::Mouse(mouse_button) => {
                    if let MouseButton::Left = mouse_button {
                        action = InputAction::Fire;
                    }
                },
                _ => {},
            },
            ButtonState::Release => {
                if let Button::Keyboard(code) = key.button {
                    self.keys_pressed.remove(&code);
                }
            },
        }
        proof {
            if old(self).wf() {
                World::lemma_same_entities_keep_wf(old(self), self);
            }
        }
        action
    }

    /// Admits an entity that the caller has just put into the simulation
    /// and the scene: files it under its identity in the registry of its
    /// kind and notes what its body carries. An entity whose identity or
    /// whose body a live entity already has is refused, and the registry
    /// stays as it was.
    pub fn insert_insertable(
        &mut self,
        identifier: KindIdentifier,
        sprite_uuid: u128,
        physics_inserted: PhysicsInserted,
    ) -> (admitted: Result<Inserted, AdmissionError>)
        requires
            old(self).wf(),
        ensures
            final(self).wf(),
            final(self).spec_character() == old(self).spec_character(),
            final(self).spec_keys_pressed() == old(self).spec_keys_pressed(),
            match admitted {
                Ok(inserted) => {
                    &&& !old(self).spec_contains(identifier.spec_kind(), identifier.spec_uuid())
                    &&& old(self).spec_resolve(physics_inserted.body_handle) is None
                    &&& inserted == (Inserted { sprite_uuid, physics_inserted })
                    &&& final(self).spec_contains(identifier.spec_kind(), identifier.spec_uuid())
                    &&& final(self).spec_inserted(identifier.spec_kind(), identifier.spec_uuid())
                        == inserted
                    &&& final(self).spec_resolve(inserted.spec_body_handle()) == Some(identifier)
                    &&& final(self).spec_bullets() == (match identifier {
                        KindIdentifier::Bullet(data) => old(self).spec_bullets().insert(
                            data.uuid,
                            InsertedBullet { inserted },
                        ),
                        KindIdentifier::Baby(_) => old(self).spec_bullets(),
                    })
                    &&& final(self).spec_babies() == (match identifier {
                        KindIdentifier::Bullet(_) => old(self).spec_babies(),
                        KindIdentifier::Baby(data) => old(self).spec_babies().insert(
                            data.uuid,
                            InsertedBaby::spec_from_inserted(inserted),
                        ),
                    })
                    &&& forall|handle: BodyHandle|
                        final(self).spec_resolve(handle) == (if handle == physics_inserted.body_handle {
                            Some(identifier)
                        } else {
                            old(self).spec_resolve(handle)
                        })
                },
                Err(AdmissionError::IdentityTaken) => {
                    &&& old(self).spec_contains(identifier.spec_kind(), identifier.spec_uuid())
                    &&& final(self).spec_same_entities(old(self))
                },
                Err(AdmissionError::BodyTaken) => {
                    &&& !old(self).spec_contains(identifier.spec_kind(), identifier.spec_uuid())
                    &&& old(self).spec_resolve(physics_inserted.body_handle) is Some
                    &&& final(self).spec_same_entities(old(self))
                },
            },
    {
        let taken = match identifier {
            KindIdentifier::Bullet(data) => self.bullets.contains_key(&data.uuid),
            KindIdentifier::Baby(data) => self.babies.contains_key(&data.uuid),
        };
        if taken {
            return Err(AdmissionError::IdentityTaken);
        }
        let key: u128 = physics_inserted.body_handle.key();
        if self.tags.contains_key(&key) {
            return Err(AdmissionError::BodyTaken);
        }
        let inserted = Inserted::new_from_physics(sprite_uuid, physics_inserted);
        match identifier {
            KindIdentifier::Bullet(data) => {
                self.bullets.insert(data.uuid, InsertedBullet::new(inserted));
            },
            KindIdentifier::Baby(data) => {
                self.babies.insert(data.uuid, InsertedBaby::from_inserted(inserted));
            },
        }
        self.tags.insert(key, identifier);
        proof {
            let body_handle = physics_inserted.body_handle;
            assert forall|handle: BodyHandle|
                self.spec_resolve(handle) == (if handle == body_handle {
                    Some(identifier)
                } else {
                    old(self).spec_resolve(handle)
                }) by {
                lemma_key_is_injective(handle, body_handle);
            }
            assert forall|kind: EntityKind, uuid: u128| #[trigger]
                self.spec_contains(kind, uuid) implies {
                &&& self.spec_resolve(self.spec_inserted(kind, uuid).spec_body_handle())
                    matches Some(found)
                &&& found.spec_kind() == kind
                &&& found.spec_uuid() == uuid
            } by {
                if kind == identifier.spec_kind() && uuid == identifier.spec_uuid() {
                    assert(self.spec_inserted(kind, uuid).spec_body_handle() == body_handle);
                } else {
                    assert(old(self).spec_contains(kind, uuid));
                    assert(self.spec_inserted(kind, uuid) == old(self).spec_inserted(kind, uuid));
                }
            }
            assert forall|handle: BodyHandle| (#[trigger] self.spec_resolve(handle)) is Some implies self.spec_holds(
                self.spec_resolve(handle)->0,
                handle,
            ) by {
                if handle != body_handle {
                    let found = old(self).spec_resolve(handle)->0;
                    assert(old(self).spec_holds(found, handle));
                    assert(old(self).spec_contains(found.spec_kind(), found.spec_uuid()));
                }
            }
        }
        Ok(inserted)
    }

    /// Removes the entity of the given kind and identity, if it lives,
    /// and says what is left to do for it outside. After the call the
    /// identity names nothing and the body's handle resolves to nothing.
    pub fn remove_entity(&mut self, uuid: u128, from: EntityKind) -> (teardown: Option<Teardown>)
        requires
            old(self).wf(),
        ensures
            final(self).wf(),
            final(self).spec_character() == old(self).spec_character(),
            final(self).spec_keys_pressed() == old(self).spec_keys_pressed(),
            teardown == old(self).spec_teardown(from, uuid),
            !final(self).spec_contains(from, uuid),
            teardown matches Some(left) ==> final(self).spec_resolve(left.body_handle) is None,
            final(self).spec_bullets() == (if from == EntityKind::Bullet {
                old(self).spec_bullets().remove(uuid)
            } else {
                old(self).spec_bullets()
            }),
            final(self).spec_babies() == (if from == EntityKind::Baby {
                old(self).spec_babies().remove(uuid)
            } else {
                old(self).spec_babies()
            }),
            forall|handle: BodyHandle|
                final(self).spec_resolve(handle) == (if teardown is Some && teardown->0.body_handle
                    == handle {
                    None
                } else {
                    old(self).spec_resolve(handle)
                }),
    {
        let removed: Option<Inserted> = match from {
            EntityKind::Bullet => match self.bullets.remove(&uuid) {
                Some(bullet) => Some(bullet.inserted),
                None => None,
            },
            EntityKind::Baby => match self.babies.remove(&uuid) {
                Some(baby) => Some(baby.inserted),
                None => None,
            },
        };
        match removed {
            Some(inserted) => {
                let body_handle = inserted.get_body_handle();
                self.tags.remove(&body_handle.key());
                proof {
                    assert(old(self).spec_contains(from, uuid));
                    assert forall|handle: BodyHandle|
                        self.spec_resolve(handle) == (if handle == body_handle {
                            None
                        } else {
                            old(self).spec_resolve(handle)
                        }) by {
                        lemma_key_is_injective(handle, body_handle);
                    }
                    assert forall|kind: EntityKind, other: u128| #[trigger]
                        self.spec_contains(kind, other) implies {
                        &&& self.spec_resolve(self.spec_inserted(kind, other).spec_body_handle())
                            matches Some(found)
                        &&& found.spec_kind() == kind
                        &&& found.spec_uuid() == other
                    } by {
                        assert(old(self).spec_contains(kind, other));
                        assert(self.spec_inserted(kind, other) == old(self).spec_inserted(kind, other));
                    }
                    assert forall|handle: BodyHandle| (#[trigger] self.spec_resolve(handle)) is Some implies self.spec_holds(
                self.spec_resolve(handle)->0,
                handle,
            ) by {
                        let found = old(self).spec_resolve(handle)->0;
                        assert(old(self).spec_holds(found, handle));
                    }
                }
                Some(Teardown::of(inserted))
            },
            None => {
                proof {
                    assert(self.bullets@ =~= old(self).bullets@);
                    assert(self.babies@ =~= old(self).babies@);
                    World::lemma_same_entities_keep_wf(old(self), self);
                }
                None
            },
        }
    }

    /// The invariant speaks of the player and the entities alone.
    pub proof fn lemma_same_entities_keep_wf(before: &World, after: &World)
        requires
            before.wf(),
            after.spec_same_entities(before),
        ensures
            after.wf(),
    {
        assert forall|kind: EntityKind, uuid: u128| #[trigger]
            after.spec_contains(kind, uuid) implies {
            &&& after.spec_resolve(after.spec_inserted(kind, uuid).spec_body_handle())
                matches Some(found)
            &&& found.spec_kind() == kind
            &&& found.spec_uuid() == uuid
        } by {
            assert(before.spec_contains(kind, uuid));
        }
        assert forall|handle: BodyHandle| (#[trigger] after.spec_resolve(handle)) is Some implies after.spec_holds(
                after.spec_resolve(handle)->0,
                handle,
            ) by {
            assert(before.spec_resolve(handle) == after.spec_resolve(handle));
        }
    }
}

impl World {
    /// What the body behind a handle carries, if the registry knows the
    /// body.
    pub fn resolve(&self, handle: BodyHandle) -> (found: Option<KindIdentifier>)
        ensures
            found == self.spec_resolve(handle),
    {
        match self.tags.get(&handle.key()) {
            Some(identifier) => Some(*identifier),
            None => None,
        }
    }

    /// Whether the order is the sync of a live entity of the given kind.
    /// A bullet's sprite turns with its body, a baby's does not.
    pub open spec fn spec_syncs(&self, kind: EntityKind, order: SyncOrder) -> bool {
        exists|uuid: u128| #[trigger]
            self.spec_contains(kind, uuid) && order == self.spec_inserted(kind, uuid).spec_sync(
                kind == EntityKind::Bullet,
            )
    }

    /// The syncs of all live bullets, one for each, in no particular
    /// order.
    pub fn bullet_syncs(&self) -> (orders: Vec<SyncOrder>)
        requires
            self.wf(),
        ensures
            orders@.no_duplicates(),
            forall|order: SyncOrder| orders@.contains(order) <==> self.spec_syncs(EntityKind::Bullet, order),
    {
        let mut orders: Vec<SyncOrder> = Vec::new();
        for pair in it: self.bullets.iter()
            invariant
                orders@.len() == it.index(),
                it.seq() == self.bullets.iter().remaining(),
                it.seq().no_duplicates(),
                forall|i: int| 0 <= i < orders@.len() ==> orders@[i] == it.seq()[i].1.inserted.spec_sync(true),
        {
            orders.push(pair.1.inserted.sync(true));
        }
        proof {
            let pairs = self.bullets.iter().remaining();
            assert forall|order: SyncOrder|
                orders@.contains(order) <==> self.spec_syncs(EntityKind::Bullet, order) by {
                if orders@.contains(order) {
                    let at = choose|at: int| 0 <= at < orders@.len() && orders@[at] == order;
                    assert(self.spec_contains(EntityKind::Bullet, *pairs[at].0));
                }
                if self.spec_syncs(EntityKind::Bullet, order) {
                    let uuid = choose|uuid: u128| #[trigger]
                        self.spec_contains(EntityKind::Bullet, uuid) && order == self.spec_inserted(
                            EntityKind::Bullet,
                            uuid,
                        ).spec_sync(true);
                    assert(pairs.contains((&uuid, &self.bullets@[uuid])));
                    let at = choose|at: int|
                        0 <= at < pairs.len() && pairs[at] == (&uuid, &self.bullets@[uuid]);
                    assert(orders@[at] == order);
                }
            }
            assert forall|a: int, b: int|
                0 <= a < orders@.len() && 0 <= b < orders@.len() && a != b implies orders@[a]
                != orders@[b] by {
                if orders@[a] == orders@[b] {
                    assert(self.spec_contains(EntityKind::Bullet, *pairs[a].0));
                    assert(self.spec_contains(EntityKind::Bullet, *pairs[b].0));
                    assert(*pairs[a].0 == *pairs[b].0);
                    assert(pairs[a] == pairs[b]);
                }
            }
        }
        orders
    }

    /// The syncs of all live babies, one for each, in no particular
    /// order.
    pub fn baby_syncs(&self) -> (orders: Vec<SyncOrder>)
        requires
            self.wf(),
        ensures
            orders@.no_duplicates(),
            forall|order: SyncOrder| orders@.contains(order) <==> self.spec_syncs(EntityKind::Baby, order),
    {
        let mut orders: Vec<SyncOrder> = Vec::new();
        for pair in it: self.babies.iter()
            invariant
                orders@.len() == it.index(),
                it.seq() == self.babies.iter().remaining(),
                it.seq().no_duplicates(),
                forall|i: int| 0 <= i < orders@.len() ==> orders@[i] == it.seq()[i].1.inserted.spec_sync(false),
        {
            orders.push(pair.1.update());
        }
        proof {
            let pairs = self.babies.iter().remaining();
            assert forall|order: SyncOrder|
                orders@.contains(order) <==> self.spec_syncs(EntityKind::Baby, order) by {
                if orders@.contains(order) {
                    let at = choose|at: int| 0 <= at < orders@.len() && orders@[at] == order;
                    assert(self.spec_contains(EntityKind::Baby, *pairs[at].0));
                }
                if self.spec_syncs(EntityKind::Baby, order) {
                    let uuid = choose|uuid: u128| #[trigger]
                        self.spec_contains(EntityKind::Baby, uuid) && order == self.spec_inserted(
                            EntityKind::Baby,
                            uuid,
                        ).spec_sync(false);
                    assert(pairs.contains((&uuid, &self.babies@[uuid])));
                    let at = choose|at: int|
                        0 <= at < pairs.len() && pairs[at] == (&uuid, &self.babies@[uuid]);
                    assert(orders@[at] == order);
                }
            }
            assert forall|a: int, b: int|
                0 <= a < orders@.len() && 0 <= b < orders@.len() && a != b implies orders@[a]
                != orders@[b] by {
                if orders@[a] == orders@[b] {
                    assert(self.spec_contains(EntityKind::Baby, *pairs[a].0));
                    assert(self.spec_contains(EntityKind::Baby, *pairs[b].0));
                    assert(*pairs[a].0 == *pairs[b].0);
                    assert(pairs[a] == pairs[b]);
                }
            }
        }
        orders
    }
}

impl World {
    /// One update of the frame cycle, after the simulation has stepped
    /// and handed over the step's contact events. The plan is drawn up
    /// from the registry as it stands before the contacts are resolved,
    /// so an entity that this update removes is synced once more before
    /// its teardown.
    pub fn update(&mut self, events: &Vec<ContactEvent>) -> (plan: FramePlan)
        requires
            old(self).wf(),
        ensures
            final(self).wf(),
            plan.impulses@ == old(self).spec_character().spec_impulses(old(self).spec_keys_pressed()),
            plan.player_sync == old(self).spec_character().spec_sync(),
            plan.bullet_syncs@.no_duplicates(),
            forall|order: SyncOrder|
                plan.bullet_syncs@.contains(order) <==> old(self).spec_syncs(EntityKind::Bullet, order),
            plan.baby_syncs@.no_duplicates(),
            forall|order: SyncOrder|
                plan.baby_syncs@.contains(order) <==> old(self).spec_syncs(EntityKind::Baby, order),
            final(self).spec_after_contacts(old(self), events@, plan.teardowns@),
    {
        let (impulses, player_sync) = self.character.update(&self.keys_pressed);
        let bullet_syncs = self.bullet_syncs();
        let baby_syncs = self.baby_syncs();
        let teardowns = self.handle_contact_events(events);
        FramePlan { impulses, player_sync, bullet_syncs, baby_syncs, teardowns }
    }

    /// The player.
    pub fn character(&self) -> (character: Character)
        ensures
            character == self.spec_character(),
    {
        self.character
    }

    /// The live bullet of the given identity.
    pub fn bullet(&self, uuid: u128) -> (found: Option<InsertedBullet>)
        ensures
            found == (if self.spec_bullets().contains_key(uuid) {
                Some(self.spec_bullets()[uuid])
            } else {
                None
            }),
    {
        match self.bullets.get(&uuid) {
            Some(bullet) => Some(*bullet),
            None => None,
        }
    }

    /// The live baby of the given identity.
    pub fn baby(&self, uuid: u128) -> (found: Option<InsertedBaby>)
        ensures
            found == (if self.spec_babies().contains_key(uuid) {
                Some(self.spec_babies()[uuid])
            } else {
                None
            }),
    {
        match self.babies.get(&uuid) {
            Some(baby) => Some(*baby),
            None => None,
        }
    }

    /// How many bullets live.
    pub fn bullet_count(&self) -> (count: usize)
        ensures
            count == self.spec_bullets().len(),
    {
        self.bullets.len()
    }

    /// How many babies live.
    pub fn baby_count(&self) -> (count: usize)
        ensures
            count == self.spec_babies().len(),
    {
        self.babies.len()
    }

    /// Whether the key of the given code is held down.
    pub fn is_key_pressed(&self, code: u32) -> (pressed: bool)
        ensures
            pressed == self.spec_keys_pressed().contains(code),
    {
        self.keys_pressed.contains(&code)
    }

}

} // verus!
