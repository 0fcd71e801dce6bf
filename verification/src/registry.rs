//! A two-way index between entities (named by their 64-bit entity bits) and
//! the Jolt bodies created for them.
use std::collections::HashMap;
use vstd::prelude::*;

use crate::body::BodyId;

verus! {

broadcast use vstd::std_specs::hash::group_hash_axioms;

/// The abstract state of a [`PhysicsRegistry`]: the body of each entity, and
/// the entity last registered for each raw body id.
#[verifier::ext_equal]
pub struct RegistryView {
    pub entity_to_body: Map<u64, BodyId>,
    pub body_to_entity: Map<u32, u64>,
}

impl RegistryView {
    pub open spec fn empty() -> RegistryView {
        RegistryView { entity_to_body: Map::empty(), body_to_entity: Map::empty() }
    }

    /// The body registered for `entity`, if any.
    pub open spec fn body_of(self, entity: u64) -> Option<BodyId> {
        if self.entity_to_body.contains_key(entity) {
            Some(self.entity_to_body[entity])
        } else {
            None
        }
    }

    /// The state after registering `body` for `entity`: both directions are
    /// overwritten, older entries for other keys are kept.
    pub open spec fn register(self, entity: u64, body: BodyId) -> RegistryView {
        RegistryView {
            entity_to_body: self.entity_to_body.insert(entity, body),
            body_to_entity: self.body_to_entity.insert(body.0, entity),
        }
    }

    /// The state and the result after removing the body of `entity`: when
    /// one is registered, both its entries go and it is returned; otherwise
    /// nothing changes.
    pub open spec fn remove_body(self, entity: u64) -> (RegistryView, Option<BodyId>) {
        match self.body_of(entity) {
            Some(body) => (
                RegistryView {
                    entity_to_body: self.entity_to_body.remove(entity),
                    body_to_entity: self.body_to_entity.remove(body.0),
                },
                Some(body),
            ),
            None => (self, None),
        }
    }
}

/// Index between entities and their Jolt bodies.
pub struct PhysicsRegistry {
    entity_to_body: HashMap<u64, BodyId>,
    body_to_entity: HashMap<u32, u64>,
}

impl View for PhysicsRegistry {
    type V = RegistryView;

    closed spec fn view(&self) -> RegistryView {
        RegistryView { entity_to_body: self.entity_to_body@, body_to_entity: self.body_to_entity@ }
    }
}

impl Default for PhysicsRegistry {
    fn default() -> (r: Self)
        ensures
            r@ == RegistryView::empty(),
    {
        PhysicsRegistry::new()
    }
}

impl PhysicsRegistry {
    /// An empty registry.
    pub fn new() -> (r: Self)
        ensures
            r@ == RegistryView::empty(),
    {
        let r = PhysicsRegistry { entity_to_body: HashMap::new(), body_to_entity: HashMap::new() };
        assert(r@ =~= RegistryView::empty());
        r
    }

    /// Records that `body_id` is the body of `entity`.
    pub fn register(&mut self, entity: u64, body_id: BodyId)
        ensures
            final(self)@ == old(self)@.register(entity, body_id),
            final(self)@.body_of(entity) == Some(body_id),
            forall|other: u64|
                other != entity ==> #[trigger] final(self)@.body_of(other) == old(self)@.body_of(
                    other,
                ),
            final(self)@.body_to_entity.contains_key(body_id.0),
            final(self)@.body_to_entity[body_id.0] == entity,
            forall|raw: u32|
                raw != body_id.0 ==> (#[trigger] final(self)@.body_to_entity.contains_key(raw)
                    == old(self)@.body_to_entity.contains_key(raw) && (
                old(self)@.body_to_entity.contains_key(raw) ==> final(self)@.body_to_entity[raw]
                    == old(self)@.body_to_entity[raw])),
    {
        self.entity_to_body.insert(entity, body_id);
        self.body_to_entity.insert(body_id.0, entity);
        assert(self@ =~= old(self)@.register(entity, body_id));
    }

    /// The body registered for `entity`, if any.
    pub fn get_body(&self, entity: u64) -> (r: Option<BodyId>)
        ensures
            r == self@.body_of(entity),
    {
        match self.entity_to_body.get(&entity) {
            Some(body_id) => Some(*body_id),
            None => None,
        }
    }

    /// Forgets the body of `entity` and returns it, if one was registered.
    pub fn remove_body(&mut self, entity: u64) -> (r: Option<BodyId>)
        ensures
            (final(self)@, r) == old(self)@.remove_body(entity),
            r == old(self)@.body_of(entity),
            final(self)@.body_of(entity) is None,
            forall|other: u64|
                other != entity ==> #[trigger] final(self)@.body_of(other) == old(self)@.body_of(
                    other,
                ),
            r is None ==> final(self)@ == old(self)@,
            r matches Some(body) ==> !final(self)@.body_to_entity.contains_key(body.0),
            forall|raw: u32|
                (r matches Some(body) ==> raw != body.0) ==> (
                #[trigger] final(self)@.body_to_entity.contains_key(raw)
                    == old(self)@.body_to_entity.contains_key(raw) && (
                old(self)@.body_to_entity.contains_key(raw) ==> final(self)@.body_to_entity[raw]
                    == old(self)@.body_to_entity[raw])),
    {
        if let Some(body_id) = self.entity_to_body.remove(&entity) {
            self.body_to_entity.remove(&body_id.0);
            assert(self@ =~= old(self)@.remove_body(entity).0);
            Some(body_id)
        } else {
            assert(self@ =~= old(self)@);
            None
        }
    }
}

/// What a lookup gives back of a registration: the body just registered;
/// and the body's reverse entry names the entity.
pub proof fn law_get_after_register(state: RegistryView, entity: u64, body: BodyId)
    ensures
        state.register(entity, body).body_of(entity) == Some(body),
        state.register(entity, body).body_to_entity[body.0] == entity,
{
}

/// Registering one entity leaves the body of every other entity unchanged.
pub proof fn law_register_keeps_other_entities(
    state: RegistryView,
    entity: u64,
    body: BodyId,
    other: u64,
)
    requires
        other != entity,
    ensures
        state.register(entity, body).body_of(other) == state.body_of(other),
{
}

/// Removing an entity hands back exactly what a lookup would have given,
/// and afterwards the entity has no body.
pub proof fn law_remove_returns_lookup(state: RegistryView, entity: u64)
    ensures
        state.remove_body(entity).1 == state.body_of(entity),
        state.remove_body(entity).0.body_of(entity) is None,
{
}

/// Registering a body sets its reverse entry to the entity and leaves the
/// reverse entry of every other body id unchanged.
pub proof fn law_register_keeps_other_reverse_entries(
    state: RegistryView,
    entity: u64,
    body: BodyId,
    raw: u32,
)
    ensures
        state.register(entity, body).body_to_entity.contains_key(body.0),
        state.register(entity, body).body_to_entity[body.0] == entity,
        raw != body.0 ==> (state.register(entity, body).body_to_entity.contains_key(raw)
            == state.body_to_entity.contains_key(raw) && (state.body_to_entity.contains_key(raw)
            ==> state.register(entity, body).body_to_entity[raw] == state.body_to_entity[raw])),
{
}

/// Removing one entity leaves the body of every other entity unchanged.
pub proof fn law_remove_keeps_other_entities(state: RegistryView, entity: u64, other: u64)
    requires
        other != entity,
    ensures
        state.remove_body(entity).0.body_of(other) == state.body_of(other),
{
}

/// Removing an entity drops exactly the reverse entry of its body: every
/// other body id keeps its reverse entry, and the removed body has none.
pub proof fn law_remove_keeps_other_reverse_entries(state: RegistryView, entity: u64, raw: u32)
    ensures
        state.remove_body(entity).1 matches Some(body) ==> !state.remove_body(
            entity,
        ).0.body_to_entity.contains_key(body.0),
        (state.remove_body(entity).1 matches Some(body) ==> raw != body.0) ==> (
        state.remove_body(entity).0.body_to_entity.contains_key(raw)
            == state.body_to_entity.contains_key(raw) && (state.body_to_entity.contains_key(raw)
            ==> state.remove_body(entity).0.body_to_entity[raw] == state.body_to_entity[raw])),
{
}

/// Registering and removing an entity that had no body gives back the
/// lookups of the state before: every entity has the body it had.
pub proof fn law_register_then_remove_restores_lookups(
    state: RegistryView,
    entity: u64,
    body: BodyId,
    other: u64,
)
    requires
        state.body_of(entity) is None,
    ensures
        state.register(entity, body).remove_body(entity).0.body_of(other) == state.body_of(other),
{
}

/// Removing an entity that has no body changes nothing.
pub proof fn law_remove_unregistered_is_noop(state: RegistryView, entity: u64)
    requires
        state.body_of(entity) is None,
    ensures
        state.remove_body(entity) == (state, None::<BodyId>),
{
}

/// Registering and then removing the same entity returns the registered
/// body and leaves the entity with no body.
pub proof fn law_remove_after_register(state: RegistryView, entity: u64, body: BodyId)
    ensures
        state.register(entity, body).remove_body(entity).1 == Some(body),
        state.register(entity, body).remove_body(entity).0.body_of(entity) is None,
{
}

} // verus!
