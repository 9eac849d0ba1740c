use vstd::prelude::*;

use crate::game::contact::classify;
use crate::game::contact::spec_classify;
use crate::game::contact::spec_same_contacts;
use crate::game::contact::ContactEvent;
use crate::game::contact::Hit;
use crate::game::handle::BodyHandle;
use crate::game::identifier::EntityKind;
use crate::game::world::Teardown;
use crate::game::world::World;

verus! {

impl World {
    /// The hit that a contact event reports: the classification of the
    /// two bodies' identifiers where the contact started, none where it
    /// stopped.
    pub open spec fn spec_hit(&self, event: ContactEvent) -> Option<Hit> {
        match event {
            ContactEvent::Started(first, second) => spec_classify(
                self.spec_resolve(first),
                self.spec_resolve(second),
            ),
            ContactEvent::Stopped(_, _) => None,
        }
    }

    /// Whether a contact event asks for the removal of the entity of the
    /// given kind and identity.
    pub open spec fn spec_dooms(&self, event: ContactEvent, kind: EntityKind, uuid: u128) -> bool {
        match self.spec_hit(event) {
            Some(hit) => hit.spec_uuid(kind) == uuid,
            None => false,
        }
    }

    /// Whether any of the events asks for the removal of the entity.
    pub open spec fn spec_doomed(&self, events: Seq<ContactEvent>, kind: EntityKind, uuid: u128) -> bool {
        exists|i: int| 0 <= i < events.len() && #[trigger] self.spec_dooms(events[i], kind, uuid)
    }

    /// The identities of the given kind whose removal the events ask for.
    pub open spec fn spec_doomed_set(&self, events: Seq<ContactEvent>, kind: EntityKind) -> Set<u128> {
        Set::new(|uuid: u128| self.spec_doomed(events, kind, uuid))
    }

    /// The identities of the given kind that the events hit, once for
    /// each event that reports a hit, the hit of the last event first.
    pub open spec fn spec_pending(&self, events: Seq<ContactEvent>, kind: EntityKind) -> Seq<u128>
        decreases events.len(),
    {
        if events.len() == 0 {
            Seq::empty()
        } else {
            let earlier = self.spec_pending(events.drop_last(), kind);
            match self.spec_hit(events.last()) {
                Some(hit) => seq![hit.spec_uuid(kind)] + earlier,
                None => earlier,
            }
        }
    }

    /// What removing the listed entities of the given kind leaves to do:
    /// the teardown of each listed entity that lives, in the order of the
    /// list, at the place where the list names it first.
    pub open spec fn spec_teardowns(&self, kind: EntityKind, uuids: Seq<u128>) -> Seq<Teardown>
        decreases uuids.len(),
    {
        if uuids.len() == 0 {
            Seq::empty()
        } else {
            let earlier = self.spec_teardowns(kind, uuids.drop_last());
            if self.spec_contains(kind, uuids.last()) && !uuids.drop_last().contains(uuids.last()) {
                earlier.push(self.spec_teardown(kind, uuids.last())->0)
            } else {
                earlier
            }
        }
    }

    /// Whether a handle resolves to an entity of the given kind whose
    /// identity is among the given ones.
    pub open spec fn spec_names(&self, handle: BodyHandle, kind: EntityKind, uuids: Set<u128>) -> bool {
        match self.spec_resolve(handle) {
            Some(identifier) => identifier.spec_kind() == kind && uuids.contains(identifier.spec_uuid()),
            None => false,
        }
    }

    /// Whether a handle resolves to an entity whose removal the events
    /// ask for.
    pub open spec fn spec_condemned(&self, handle: BodyHandle, events: Seq<ContactEvent>) -> bool {
        match self.spec_resolve(handle) {
            Some(identifier) => self.spec_doomed(events, identifier.spec_kind(), identifier.spec_uuid()),
            None => false,
        }
    }

    /// Whether the teardown is that of a live entity of the given kind
    /// whose identity is among the given ones.
    pub open spec fn spec_leaves(&self, kind: EntityKind, uuids: Set<u128>, teardown: Teardown) -> bool {
        exists|uuid: u128| uuids.contains(uuid) && #[trigger] self.spec_teardown(kind, uuid) == Some(teardown)
    }

    /// Whether `self` is what `before` becomes when the listed entities
    /// of the given kind are removed from it, with `teardowns` as what is
    /// left to do.
    pub open spec fn spec_after_removals(
        &self,
        before: &World,
        kind: EntityKind,
        uuids: Seq<u128>,
        teardowns: Seq<Teardown>,
    ) -> bool {
        &&& self.spec_character() == before.spec_character()
        &&& self.spec_keys_pressed() == before.spec_keys_pressed()
        &&& self.spec_bullets() == (if kind == EntityKind::Bullet {
            before.spec_bullets().remove_keys(uuids.to_set())
        } else {
            before.spec_bullets()
        })
        &&& self.spec_babies() == (if kind == EntityKind::Baby {
            before.spec_babies().remove_keys(uuids.to_set())
        } else {
            before.spec_babies()
        })
        &&& forall|handle: BodyHandle|
            self.spec_resolve(handle) == (if before.spec_names(handle, kind, uuids.to_set()) {
                None
            } else {
                before.spec_resolve(handle)
            })
        &&& teardowns == before.spec_teardowns(kind, uuids)
    }

    /// Whether `self` is what `before` becomes when the contact events of
    /// a step are resolved, with `teardowns` as what is left to do: every
    /// bullet and every baby that some started contact brought together
    /// is gone, and nothing else has changed. The teardowns of the
    /// bullets come first, then those of the babies, each kind from the
    /// entity that was hit last to the one that was hit first.
    pub open spec fn spec_after_contacts(
        &self,
        before: &World,
        events: Seq<ContactEvent>,
        teardowns: Seq<Teardown>,
    ) -> bool {
        &&& self.spec_character() == before.spec_character()
        &&& self.spec_keys_pressed() == before.spec_keys_pressed()
        &&& self.spec_bullets() == before.spec_bullets().remove_keys(
            before.spec_doomed_set(events, EntityKind::Bullet),
        )
        &&& self.spec_babies() == before.spec_babies().remove_keys(
            before.spec_doomed_set(events, EntityKind::Baby),
        )
        &&& forall|handle: BodyHandle|
            self.spec_resolve(handle) == (if before.spec_condemned(handle, events) {
                None
            } else {
                before.spec_resolve(handle)
            })
        &&& teardowns == before.spec_teardowns(
            EntityKind::Bullet,
            before.spec_pending(events, EntityKind::Bullet),
        ) + before.spec_teardowns(EntityKind::Baby, before.spec_pending(events, EntityKind::Baby))
    }

    /// The first pass over the contact events of a step: the identities
    /// of the bullets and of the babies that the events hit, the hit of
    /// the last event first. The registry is only read.
    pub fn pending_removals(&self, events: &Vec<ContactEvent>) -> (pending: (Vec<u128>, Vec<u128>))
        ensures
            pending.0@ == self.spec_pending(events@, EntityKind::Bullet),
            pending.1@ == self.spec_pending(events@, EntityKind::Baby),
    {
        let mut bullets_to_remove: Vec<u128> = Vec::new();
        let mut babies_to_remove: Vec<u128> = Vec::new();
        let mut i: usize = 0;
        while i < events.len()
            invariant
                i <= events.len(),
                bullets_to_remove@ == self.spec_pending(events@.take(i as int), EntityKind::Bullet),
                babies_to_remove@ == self.spec_pending(events@.take(i as int), EntityKind::Baby),
            decreases events.len() - i,
        {
            let event = events[i];
            if let ContactEvent::Started(first, second) = event {
                if let Some(hit) = classify(self.resolve(first), self.resolve(second)) {
                    bullets_to_remove.insert(0, hit.uuid(EntityKind::Bullet));
                    babies_to_remove.insert(0, hit.uuid(EntityKind::Baby));
                }
            }
            proof {
                let seen = events@.take(i as int + 1);
                assert(seen.drop_last() == events@.take(i as int));
                assert(seen.last() == event);
                if self.spec_hit(event) is Some {
                    let hit = self.spec_hit(event)->0;
                    assert(bullets_to_remove@ =~= seq![hit.bullet] + self.spec_pending(
                        events@.take(i as int),
                        EntityKind::Bullet,
                    ));
                    assert(babies_to_remove@ =~= seq![hit.baby] + self.spec_pending(
                        events@.take(i as int),
                        EntityKind::Baby,
                    ));
                }
            }
            i += 1;
        }
        proof {
            assert(events@.take(i as int) == events@);
        }
        (bullets_to_remove, babies_to_remove)
    }

    /// The second pass: removes the listed entities of the given kind
    /// that live, each once however often it is listed, and says what is
    /// left to do for each of them outside.
    pub fn remove_entities(&mut self, uuids: &Vec<u128>, from: EntityKind) -> (teardowns: Vec<Teardown>)
        requires
            old(self).wf(),
        ensures
            final(self).wf(),
            final(self).spec_after_removals(old(self), from, uuids@, teardowns@),
    {
        let ghost before = *self;
        let mut teardowns: Vec<Teardown> = Vec::new();
        let mut i: usize = 0;
        proof {
            assert(uuids@.take(0).to_set() =~= Set::<u128>::empty());
            assert(before.spec_bullets().remove_keys(Set::<u128>::empty()) =~= before.spec_bullets());
            assert(before.spec_babies().remove_keys(Set::<u128>::empty()) =~= before.spec_babies());
        }
        while i < uuids.len()
            invariant
                i <= uuids.len(),
                before.wf(),
                self.wf(),
                self.spec_after_removals(&before, from, uuids@.take(i as int), teardowns@),
            decreases uuids.len() - i,
        {
            let ghost listed = uuids@.take(i as int);
            let ghost middle = *self;
            let uuid: u128 = uuids[i];
            let teardown = self.remove_entity(uuid, from);
            if let Some(left) = teardown {
                teardowns.push(left);
            }
            proof {
                let longer = uuids@.take(i as int + 1);
                let done = listed.to_set();
                let more = done.insert(uuid);
                assert(longer.drop_last() == listed);
                assert(longer.last() == uuid);
                listed.lemma_push_to_set_commute(uuid);
                assert(longer == listed.push(uuid));
                assert(longer.to_set() =~= more);
                assert(before.spec_bullets().remove_keys(done).remove(uuid)
                    =~= before.spec_bullets().remove_keys(more));
                assert(before.spec_babies().remove_keys(done).remove(uuid)
                    =~= before.spec_babies().remove_keys(more));
                assert(middle.spec_contains(from, uuid) <==> before.spec_contains(from, uuid)
                    && !listed.contains(uuid));
                assert(middle.spec_contains(from, uuid) ==> before.spec_teardown(from, uuid) == teardown);
                assert forall|handle: BodyHandle|
                    self.spec_resolve(handle) == (if before.spec_names(handle, from, more) {
                        None
                    } else {
                        before.spec_resolve(handle)
                    }) by {
                    if middle.spec_resolve(handle) is Some {
                        let identifier = middle.spec_resolve(handle)->0;
                        assert(middle.spec_holds(identifier, handle));
                    }
                }
            }
            i += 1;
        }
        proof {
            assert(uuids@.take(i as int) == uuids@);
        }
        teardowns
    }

    /// Resolves the contact events of a step in two passes: first all
    /// events are classified against the registry as it stands, then the
    /// bullets and the babies that were hit are removed, each once.
    pub fn handle_contact_events(&mut self, events: &Vec<ContactEvent>) -> (teardowns: Vec<Teardown>)
        requires
            old(self).wf(),
        ensures
            final(self).wf(),
            final(self).spec_after_contacts(old(self), events@, teardowns@),
    {
        let ghost before = *self;
        let (bullets_to_remove, babies_to_remove) = self.pending_removals(events);
        let mut teardowns = self.remove_entities(&bullets_to_remove, EntityKind::Bullet);
        let ghost middle = *self;
        let mut others = self.remove_entities(&babies_to_remove, EntityKind::Baby);
        teardowns.append(&mut others);
        proof {
            before.lemma_pending_lists_the_doomed(events@, EntityKind::Bullet);
            before.lemma_pending_lists_the_doomed(events@, EntityKind::Baby);
            World::lemma_teardowns_read_one_registry(&middle, &before, EntityKind::Baby, babies_to_remove@);
        }
        teardowns
    }

    /// The identities that the first pass lists are those whose removal
    /// the events ask for.
    pub proof fn lemma_pending_lists_the_doomed(&self, events: Seq<ContactEvent>, kind: EntityKind)
        ensures
            self.spec_pending(events, kind).to_set() == self.spec_doomed_set(events, kind),
        decreases events.len(),
    {
        let pending = self.spec_pending(events, kind);
        if events.len() == 0 {
            assert(pending.to_set() =~= self.spec_doomed_set(events, kind));
        } else {
            let earlier = events.drop_last();
            let listed = self.spec_pending(earlier, kind);
            self.lemma_pending_lists_the_doomed(earlier, kind);
            assert(events == earlier.push(events.last()));
            assert forall|uuid: u128|
                pending.to_set().contains(uuid) <==> self.spec_doomed(events, kind, uuid) by {
                self.lemma_doomed_by_one_more(earlier, events.last(), kind, uuid);
                assert(listed.to_set().contains(uuid) <==> self.spec_doomed_set(earlier, kind).contains(
                    uuid,
                ));
                if self.spec_hit(events.last()) is Some {
                    if listed.contains(uuid) {
                        let at = choose|at: int| 0 <= at < listed.len() && listed[at] == uuid;
                        assert(pending[at + 1] == uuid);
                    }
                    if self.spec_dooms(events.last(), kind, uuid) {
                        assert(pending[0] == uuid);
                    }
                    if pending.contains(uuid) {
                        let at = choose|at: int| 0 <= at < pending.len() && pending[at] == uuid;
                        if at > 0 {
                            assert(listed[at - 1] == uuid);
                        }
                    }
                }
            }
            assert(pending.to_set() =~= self.spec_doomed_set(events, kind));
        }
    }

    /// One more event dooms what the events before it doomed and what it
    /// dooms itself.
    proof fn lemma_doomed_by_one_more(
        &self,
        events: Seq<ContactEvent>,
        event: ContactEvent,
        kind: EntityKind,
        uuid: u128,
    )
        ensures
            self.spec_doomed(events.push(event), kind, uuid) <==> (self.spec_doomed(events, kind, uuid)
                || self.spec_dooms(event, kind, uuid)),
    {
        let more = events.push(event);
        if self.spec_doomed(events, kind, uuid) {
            let i = choose|i: int| 0 <= i < events.len() && #[trigger] self.spec_dooms(events[i], kind, uuid);
            assert(self.spec_dooms(more[i], kind, uuid));
        }
        if self.spec_dooms(event, kind, uuid) {
            assert(self.spec_dooms(more[events.len() as int], kind, uuid));
        }
        if self.spec_doomed(more, kind, uuid) {
            let i = choose|i: int| 0 <= i < more.len() && #[trigger] self.spec_dooms(more[i], kind, uuid);
            if i < events.len() {
                assert(self.spec_dooms(events[i], kind, uuid));
            }
        }
    }

    /// The teardowns of one kind depend on the registry of that kind
    /// alone.
    proof fn lemma_teardowns_read_one_registry(
        one: &World,
        other: &World,
        kind: EntityKind,
        uuids: Seq<u128>,
    )
        requires
            kind == EntityKind::Bullet ==> one.spec_bullets() == other.spec_bullets(),
            kind == EntityKind::Baby ==> one.spec_babies() == other.spec_babies(),
        ensures
            one.spec_teardowns(kind, uuids) == other.spec_teardowns(kind, uuids),
        decreases uuids.len(),
    {
        if uuids.len() > 0 {
            World::lemma_teardowns_read_one_registry(one, other, kind, uuids.drop_last());
        }
    }

    /// However often the list names an entity, it is torn down once: no
    /// teardown comes twice, and the teardowns are those of the listed
    /// entities that live.
    pub proof fn lemma_each_listed_entity_is_torn_down_once(&self, kind: EntityKind, uuids: Seq<u128>)
        requires
            self.wf(),
        ensures
            self.spec_teardowns(kind, uuids).no_duplicates(),
            forall|teardown: Teardown|
                self.spec_teardowns(kind, uuids).contains(teardown) <==> self.spec_leaves(
                    kind,
                    uuids.to_set(),
                    teardown,
                ),
        decreases uuids.len(),
    {
        let all = self.spec_teardowns(kind, uuids);
        if uuids.len() == 0 {
            assert forall|teardown: Teardown| !self.spec_leaves(kind, uuids.to_set(), teardown) by {
                if self.spec_leaves(kind, uuids.to_set(), teardown) {
                    let uuid = choose|uuid: u128|
                        uuids.to_set().contains(uuid) && #[trigger] self.spec_teardown(kind, uuid) == Some(
                            teardown,
                        );
                    assert(uuids.contains(uuid));
                }
            }
        } else {
            let listed = uuids.drop_last();
            let uuid = uuids.last();
            let earlier = self.spec_teardowns(kind, listed);
            self.lemma_each_listed_entity_is_torn_down_once(kind, listed);
            assert(uuids == listed.push(uuid));
            listed.lemma_push_to_set_commute(uuid);
            let done = listed.to_set();
            let more = uuids.to_set();
            assert(more == done.insert(uuid));
            let fresh = self.spec_contains(kind, uuid) && !listed.contains(uuid);
            if fresh {
                let left = self.spec_teardown(kind, uuid)->0;
                assert(all == earlier.push(left));
                if earlier.contains(left) {
                    let twin = choose|twin: u128|
                        done.contains(twin) && #[trigger] self.spec_teardown(kind, twin) == Some(left);
                    assert(self.spec_contains(kind, twin));
                    assert(self.spec_contains(kind, uuid));
                    assert(twin == uuid);
                    assert(listed.contains(uuid));
                }
                assert forall|a: int, b: int| 0 <= a < all.len() && 0 <= b < all.len() && a != b implies all[a]
                    != all[b] by {
                    if a == earlier.len() {
                        assert(earlier[b] == all[b]);
                        assert(earlier.contains(all[b]));
                    } else if b == earlier.len() {
                        assert(earlier[a] == all[a]);
                        assert(earlier.contains(all[a]));
                    } else {
                        assert(earlier[a] != earlier[b]);
                    }
                }
            }
            assert forall|teardown: Teardown|
                all.contains(teardown) <==> self.spec_leaves(kind, more, teardown) by {
                if earlier.contains(teardown) {
                    let at = choose|at: int| 0 <= at < earlier.len() && earlier[at] == teardown;
                    assert(all[at] == teardown);
                    let named = choose|named: u128|
                        done.contains(named) && #[trigger] self.spec_teardown(kind, named) == Some(teardown);
                    assert(more.contains(named));
                }
                if fresh && self.spec_teardown(kind, uuid) == Some(teardown) {
                    assert(all[earlier.len() as int] == teardown);
                    assert(more.contains(uuid));
                }
                if all.contains(teardown) {
                    let at = choose|at: int| 0 <= at < all.len() && all[at] == teardown;
                    if at < earlier.len() {
                        assert(earlier[at] == teardown);
                    }
                }
                if self.spec_leaves(kind, more, teardown) {
                    let named = choose|named: u128|
                        more.contains(named) && #[trigger] self.spec_teardown(kind, named) == Some(teardown);
                    if named != uuid {
                        assert(done.contains(named));
                        assert(self.spec_leaves(kind, done, teardown));
                    } else if !fresh {
                        assert(listed.contains(uuid));
                        assert(done.contains(uuid));
                        assert(self.spec_leaves(kind, done, teardown));
                    }
                }
            }
        }
    }

    /// No handle outlives its entity: once the contacts of a step are
    /// resolved, the body of every teardown resolves to nothing, and so
    /// the registry asks for no teardown of it again.
    pub proof fn lemma_torn_down_bodies_are_forgotten(
        &self,
        before: &World,
        events: Seq<ContactEvent>,
        teardowns: Seq<Teardown>,
    )
        requires
            before.wf(),
            self.spec_after_contacts(before, events, teardowns),
        ensures
            forall|i: int|
                0 <= i < teardowns.len() ==> self.spec_resolve(#[trigger] teardowns[i].body_handle) is None,
    {
        let bullets = before.spec_teardowns(EntityKind::Bullet, before.spec_pending(events, EntityKind::Bullet));
        let babies = before.spec_teardowns(EntityKind::Baby, before.spec_pending(events, EntityKind::Baby));
        before.lemma_each_listed_entity_is_torn_down_once(
            EntityKind::Bullet,
            before.spec_pending(events, EntityKind::Bullet),
        );
        before.lemma_each_listed_entity_is_torn_down_once(
            EntityKind::Baby,
            before.spec_pending(events, EntityKind::Baby),
        );
        before.lemma_pending_lists_the_doomed(events, EntityKind::Bullet);
        before.lemma_pending_lists_the_doomed(events, EntityKind::Baby);
        assert forall|i: int| 0 <= i < teardowns.len() implies self.spec_resolve(
            #[trigger] teardowns[i].body_handle,
        ) is None by {
            let teardown = teardowns[i];
            let kind = if i < bullets.len() {
                EntityKind::Bullet
            } else {
                EntityKind::Baby
            };
            if i < bullets.len() {
                assert(bullets[i] == teardown);
                assert(bullets.contains(teardown));
            } else {
                assert(babies[i - bullets.len()] == teardown);
                assert(babies.contains(teardown));
            }
            let doomed = before.spec_doomed_set(events, kind);
            assert(before.spec_leaves(kind, doomed, teardown));
            let uuid = choose|uuid: u128|
                doomed.contains(uuid) && #[trigger] before.spec_teardown(kind, uuid) == Some(teardown);
            assert(before.spec_contains(kind, uuid));
            assert(before.spec_doomed(events, kind, uuid));
            assert(before.spec_condemned(teardown.body_handle, events));
        }
    }

    /// A started contact between the body of a bullet and the body of a
    /// baby is a hit of that bullet on that baby, whichever of the two
    /// the event names first.
    pub proof fn lemma_bullet_meeting_baby_is_a_hit(&self, bullet_body: BodyHandle, baby_body: BodyHandle)
        requires
            self.spec_resolve(bullet_body) is Some,
            self.spec_resolve(bullet_body)->0.spec_kind() == EntityKind::Bullet,
            self.spec_resolve(baby_body) is Some,
            self.spec_resolve(baby_body)->0.spec_kind() == EntityKind::Baby,
        ensures
            self.spec_hit(ContactEvent::Started(bullet_body, baby_body)) == Some(
                Hit {
                    bullet: self.spec_resolve(bullet_body)->0.spec_uuid(),
                    baby: self.spec_resolve(baby_body)->0.spec_uuid(),
                },
            ),
            self.spec_hit(ContactEvent::Started(baby_body, bullet_body)) == self.spec_hit(
                ContactEvent::Started(bullet_body, baby_body),
            ),
    {
    }

    /// A contact event and its mirror image report the same hit.
    pub proof fn lemma_mirrored_event_reports_the_same(&self, event: ContactEvent)
        ensures
            self.spec_hit(event.spec_mirrored()) == self.spec_hit(event),
    {
    }

    /// Events that differ only in the order in which they name their two
    /// bodies hit the same entities, in the same order.
    pub proof fn lemma_same_contacts_hit_the_same(
        &self,
        events: Seq<ContactEvent>,
        others: Seq<ContactEvent>,
        kind: EntityKind,
    )
        requires
            spec_same_contacts(events, others),
        ensures
            self.spec_pending(others, kind) == self.spec_pending(events, kind),
        decreases events.len(),
    {
        if events.len() > 0 {
            self.lemma_same_contacts_hit_the_same(events.drop_last(), others.drop_last(), kind);
            self.lemma_mirrored_event_reports_the_same(events.last());
        }
    }

    /// The order in which a contact event names its two bodies does not
    /// matter to the resolution of a step: what resolving the events may
    /// leave behind is what resolving them with any of the pairs turned
    /// round may leave behind.
    pub proof fn lemma_contact_order_is_immaterial(
        &self,
        before: &World,
        events: Seq<ContactEvent>,
        others: Seq<ContactEvent>,
        teardowns: Seq<Teardown>,
    )
        requires
            spec_same_contacts(events, others),
        ensures
            self.spec_after_contacts(before, others, teardowns) == self.spec_after_contacts(
                before,
                events,
                teardowns,
            ),
    {
        before.lemma_same_contacts_hit_the_same(events, others, EntityKind::Bullet);
        before.lemma_same_contacts_hit_the_same(events, others, EntityKind::Baby);
        before.lemma_pending_lists_the_doomed(events, EntityKind::Bullet);
        before.lemma_pending_lists_the_doomed(events, EntityKind::Baby);
        before.lemma_pending_lists_the_doomed(others, EntityKind::Bullet);
        before.lemma_pending_lists_the_doomed(others, EntityKind::Baby);
        assert forall|kind: EntityKind, uuid: u128|
            before.spec_doomed(others, kind, uuid) == before.spec_doomed(events, kind, uuid) by {
            assert(before.spec_doomed_set(others, kind).contains(uuid) == before.spec_doomed_set(
                events,
                kind,
            ).contains(uuid)) by {
                before.lemma_same_contacts_hit_the_same(events, others, kind);
                before.lemma_pending_lists_the_doomed(events, kind);
                before.lemma_pending_lists_the_doomed(others, kind);
            }
        }
        assert forall|handle: BodyHandle|
            before.spec_condemned(handle, others) == before.spec_condemned(handle, events) by {
        }
    }
}

} // verus!
