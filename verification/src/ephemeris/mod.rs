//! Celestial bodies, ephemeris tables and the registry of body entities.
//!
//! Body positions and velocities are floating-point computations and stay
//! with the application; this module keeps the catalogue of bodies, the
//! binary table format, the table store and the mapping between scene
//! entities and bodies.

pub mod data;
pub mod horizons_tables;
pub mod table;

pub use data::CelestialBodyId;

use data::{body_slot, slot, BODY_COUNT};
use std::collections::HashMap;
use vstd::prelude::*;
use vstd::std_specs::iter::IteratorSpec;

verus! {

broadcast use vstd::std_specs::hash::group_hash_axioms;

/// The registry half of the ephemeris: which scene entity shows which body.
///
/// Entities are named by their 64-bit identifiers.
pub struct Ephemeris {
    /// Mapping from entity to celestial body ID
    entity_to_id: HashMap<u64, CelestialBodyId>,
    /// Mapping from celestial body ID to entity, one slot per body
    id_to_entity: Vec<Option<u64>>,
}

impl Ephemeris {
    /// The body each registered entity shows.
    pub closed spec fn entity_ids(&self) -> Map<u64, CelestialBodyId> {
        self.entity_to_id@
    }

    /// The entity last registered for each body.
    pub closed spec fn body_entities(&self) -> Map<CelestialBodyId, u64> {
        Map::new(
            |id: CelestialBodyId| self.id_to_entity@[body_slot(id)] is Some,
            |id: CelestialBodyId| self.id_to_entity@[body_slot(id)]->Some_0,
        )
    }

    /// The registry has one slot per body.
    pub closed spec fn wf(&self) -> bool {
        self.id_to_entity@.len() == BODY_COUNT
    }

    /// An ephemeris with no entity registered.
    pub fn new() -> (r: Self)
        ensures
            r.wf(),
            r.entity_ids() == Map::<u64, CelestialBodyId>::empty(),
            r.body_entities() == Map::<CelestialBodyId, u64>::empty(),
    {
        let mut id_to_entity: Vec<Option<u64>> = Vec::new();
        let mut i: usize = 0;
        while i < BODY_COUNT
            invariant
                0 <= i <= BODY_COUNT,
                id_to_entity@.len() == i,
                forall|j: int| 0 <= j < i ==> id_to_entity@[j] is None,
            decreases BODY_COUNT - i,
        {
            id_to_entity.push(None);
            i = i + 1;
        }
        let r = Self { entity_to_id: HashMap::new(), id_to_entity };
        assert(r.body_entities() =~= Map::<CelestialBodyId, u64>::empty());
        r
    }

    /// Register an entity as a celestial body.
    pub fn register(&mut self, entity: u64, id: CelestialBodyId)
        requires
            old(self).wf(),
        ensures
            final(self).wf(),
            final(self).entity_ids() == old(self).entity_ids().insert(entity, id),
            final(self).body_entities() == old(self).body_entities().insert(id, entity),
    {
        self.entity_to_id.insert(entity, id);
        let ghost before = self.body_entities();
        let i = slot(id);
        self.id_to_entity[i] = Some(entity);
        assert(self.body_entities() =~= before.insert(id, entity)) by {
            assert forall|other: CelestialBodyId| other != id implies body_slot(other) != body_slot(
                id,
            ) by {}
        }
    }

    /// Get the entity for a celestial body ID.
    pub fn get_entity(&self, id: CelestialBodyId) -> (r: Option<u64>)
        requires
            self.wf(),
        ensures
            r is Some == self.body_entities().contains_key(id),
            r matches Some(e) ==> e == self.body_entities()[id],
    {
        self.id_to_entity[slot(id)]
    }

    /// Get the celestial body ID for an entity.
    pub fn get_id(&self, entity: u64) -> (r: Option<CelestialBodyId>)
        ensures
            r is Some == self.entity_ids().contains_key(entity),
            r matches Some(id) ==> id == self.entity_ids()[entity],
    {
        match self.entity_to_id.get(&entity) {
            Some(id) => Some(*id),
            None => None,
        }
    }

    /// Get all registered entity-ID pairs, each once, in no particular order.
    pub fn all_registered(&self) -> (r: Vec<(u64, CelestialBodyId)>)
        ensures
            r@.len() == self.entity_ids().dom().len(),
            forall|i: int|
                0 <= i < r@.len() ==> self.entity_ids().contains_key(#[trigger] r@[i].0)
                    && self.entity_ids()[r@[i].0] == r@[i].1,
            forall|e: u64| #[trigger]
                self.entity_ids().contains_key(e) ==> r@.contains((e, self.entity_ids()[e])),
    {
        let mut r: Vec<(u64, CelestialBodyId)> = Vec::new();
        let ghost all = self.entity_to_id.iter().remaining();
        for pair in it: self.entity_to_id.iter()
            invariant
                it.seq() == all,
                r@.len() == it.index(),
                forall|j: int| 0 <= j < it.index() ==> #[trigger] r@[j] == (*all[j].0, *all[j].1),
        {
            let (e, id) = pair;
            r.push((*e, *id));
        }
        proof {
            let m = self.entity_to_id@;
            assert forall|i: int| 0 <= i < r@.len() implies m.contains_key(#[trigger] r@[i].0)
                && m[r@[i].0] == r@[i].1 by {
                assert(m.contains_key(*all[i].0));
            }
            assert forall|e: u64| #[trigger] m.contains_key(e) implies r@.contains((e, m[e])) by {
                assert(all.contains((&e, &m[e])));
                let k = choose|k: int| 0 <= k < all.len() && all[k] == (&e, &m[e]);
                assert(r@[k] == (e, m[e]));
            }
        }
        r
    }
}

/// Registering an entity as a body is read back by both lookups, and leaves
/// every other entity and every other body as it was.
pub proof fn lemma_register_then_lookup(
    entity_ids: Map<u64, CelestialBodyId>,
    body_entities: Map<CelestialBodyId, u64>,
    entity: u64,
    id: CelestialBodyId,
    other_entity: u64,
    other_id: CelestialBodyId,
)
    ensures
        entity_ids.insert(entity, id).contains_key(entity),
        entity_ids.insert(entity, id)[entity] == id,
        body_entities.insert(id, entity).contains_key(id),
        body_entities.insert(id, entity)[id] == entity,
        other_entity != entity ==> entity_ids.insert(entity, id).get(other_entity) == entity_ids.get(
            other_entity,
        ),
        other_id != id ==> body_entities.insert(id, entity).get(other_id) == body_entities.get(
            other_id,
        ),
{
}

} // verus!
