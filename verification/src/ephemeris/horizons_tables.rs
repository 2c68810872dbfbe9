//! High-accuracy ephemeris tables, one per planet.

use vstd::prelude::*;

use super::data::{body_slot, is_planet, slot, CelestialBodyId, BODY_COUNT};
use super::table::{
    fits_layout, spec_from_bytes, EphemerisTable, EphemerisTableError, TableModel,
};

verus! {

/// The stable numeric id under which the exporter writes a body's table.
/// Only planets have tables: the Sun sits at the origin and moons follow
/// Keplerian orbits.
pub open spec fn spec_stable_body_id(id: CelestialBodyId) -> Option<u32> {
    match id {
        CelestialBodyId::Mercury => Some(1u32),
        CelestialBodyId::Venus => Some(2u32),
        CelestialBodyId::Earth => Some(3u32),
        CelestialBodyId::Mars => Some(4u32),
        CelestialBodyId::Jupiter => Some(5u32),
        CelestialBodyId::Saturn => Some(6u32),
        CelestialBodyId::Uranus => Some(7u32),
        CelestialBodyId::Neptune => Some(8u32),
        _ => None,
    }
}

/// Mapping from in-game `CelestialBodyId` to the stable numeric IDs used by
/// the table exporter.
pub fn stable_body_id(id: CelestialBodyId) -> (r: Option<u32>)
    ensures
        r == spec_stable_body_id(id),
        id == CelestialBodyId::Mercury ==> r == Some(1u32),
        id == CelestialBodyId::Venus ==> r == Some(2u32),
        id == CelestialBodyId::Earth ==> r == Some(3u32),
        id == CelestialBodyId::Mars ==> r == Some(4u32),
        id == CelestialBodyId::Jupiter ==> r == Some(5u32),
        id == CelestialBodyId::Saturn ==> r == Some(6u32),
        id == CelestialBodyId::Uranus ==> r == Some(7u32),
        id == CelestialBodyId::Neptune ==> r == Some(8u32),
        !is_planet(id) ==> r is None,
{
    // Only planets have ephemeris tables. Moons use Kepler (visual-only).
    match id {
        CelestialBodyId::Mercury => Some(1),
        CelestialBodyId::Venus => Some(2),
        CelestialBodyId::Earth => Some(3),
        CelestialBodyId::Mars => Some(4),
        CelestialBodyId::Jupiter => Some(5),
        CelestialBodyId::Saturn => Some(6),
        CelestialBodyId::Uranus => Some(7),
        CelestialBodyId::Neptune => Some(8),
        // Sun is always at origin, moons use Kepler
        _ => None,
    }
}

/// Stable ids are given to the planets alone, are `1 ..= 8`, and no two
/// bodies share one.
pub proof fn lemma_stable_body_id_unique(a: CelestialBodyId, b: CelestialBodyId)
    ensures
        spec_stable_body_id(a) is Some <==> is_planet(a),
        spec_stable_body_id(a) matches Some(n) ==> 1 <= n <= 8,
        spec_stable_body_id(a) is Some && spec_stable_body_id(a) == spec_stable_body_id(b) ==> a
            == b,
{
}

/// A table that may be stored for `id`: one whose body id is the stable id
/// of `id`, where `id` has one.
pub open spec fn table_matches(id: CelestialBodyId, t: TableModel) -> bool {
    spec_stable_body_id(id) matches Some(expected) ==> t.body_id == expected
}

/// What loading the table of `id` out of `bytes` into the tables `acc` gives:
/// the bytes must hold a valid table, and one of `id` itself.
pub open spec fn spec_load_one(
    id: CelestialBodyId,
    bytes: Seq<u8>,
    acc: Map<CelestialBodyId, TableModel>,
) -> Result<Map<CelestialBodyId, TableModel>, EphemerisTableError> {
    match spec_from_bytes(bytes) {
        Err(e) => Err(e),
        Ok(t) => match spec_stable_body_id(id) {
            Some(expected) if t.body_id != expected => Err(
                EphemerisTableError::BodyIdMismatch { expected, got: t.body_id },
            ),
            _ => Ok(acc.insert(id, t)),
        },
    }
}

/// What loading each candidate in turn gives; loading stops at the first failure.
pub open spec fn spec_load_all(
    cands: Seq<(CelestialBodyId, Seq<u8>)>,
    acc: Map<CelestialBodyId, TableModel>,
) -> Result<Map<CelestialBodyId, TableModel>, EphemerisTableError>
    decreases cands.len(),
{
    if cands.len() == 0 {
        Ok(acc)
    } else {
        match spec_load_one(cands[0].0, cands[0].1, acc) {
            Err(e) => Err(e),
            Ok(m) => spec_load_all(cands.drop_first(), m),
        }
    }
}

/// The candidates of a load, each with the bytes of its table.
pub open spec fn candidates_view(cands: Seq<(CelestialBodyId, &[u8])>) -> Seq<
    (CelestialBodyId, Seq<u8>),
> {
    cands.map_values(|c: (CelestialBodyId, &[u8])| (c.0, c.1@))
}

/// The loaded ephemeris tables, at most one per body.
pub struct HorizonsTables {
    tables: Vec<Option<EphemerisTable>>,
}

impl Default for HorizonsTables {
    fn default() -> (r: Self)
        ensures
            r.wf(),
            r@ == Map::<CelestialBodyId, TableModel>::empty(),
    {
        Self::new()
    }
}

impl View for HorizonsTables {
    type V = Map<CelestialBodyId, TableModel>;

    closed spec fn view(&self) -> Map<CelestialBodyId, TableModel> {
        Map::new(
            |id: CelestialBodyId| self.tables@[body_slot(id)] is Some,
            |id: CelestialBodyId| self.tables@[body_slot(id)]->Some_0@,
        )
    }
}

impl HorizonsTables {
    /// The store has a slot for every body, and every stored table carries
    /// the stable id of the body it is stored for.
    pub closed spec fn wf(&self) -> bool {
        &&& self.tables@.len() == BODY_COUNT
        &&& forall|id: CelestialBodyId| #[trigger]
            self.tables@[body_slot(id)] matches Some(t) ==> table_matches(id, t@)
    }

    /// A store without any table.
    pub fn new() -> (r: Self)
        ensures
            r.wf(),
            r@ == Map::<CelestialBodyId, TableModel>::empty(),
    {
        let mut tables: Vec<Option<EphemerisTable>> = Vec::new();
        let mut i: usize = 0;
        while i < BODY_COUNT
            invariant
                0 <= i <= BODY_COUNT,
                tables@.len() == i,
                forall|j: int| 0 <= j < i ==> tables@[j] is None,
            decreases BODY_COUNT - i,
        {
            tables.push(None);
            i = i + 1;
        }
        let r = Self { tables };
        assert(r@ =~= Map::<CelestialBodyId, TableModel>::empty());
        r
    }

    /// Read the table of `id` out of `bytes` and store it, replacing any
    /// table stored for `id` before.
    ///
    /// Fails, leaving the store as it was, where the bytes are not a valid
    /// table, or where they describe another body than `id`.
    pub fn load_table(&mut self, id: CelestialBodyId, bytes: &[u8]) -> (r: Result<
        (),
        EphemerisTableError,
    >)
        requires
            old(self).wf(),
            fits_layout(bytes@),
        ensures
            final(self).wf(),
            match spec_load_one(id, bytes@, old(self)@) {
                Err(e) => r == Err::<(), EphemerisTableError>(e) && final(self)@ == old(self)@,
                Ok(m) => r == Ok::<(), EphemerisTableError>(()) && final(self)@ == m,
            },
            (spec_from_bytes(bytes@) matches Err(e) ==> r == Err::<(), EphemerisTableError>(e)),
            (spec_from_bytes(bytes@) matches Ok(t) ==> match spec_stable_body_id(id) {
                Some(expected) if t.body_id != expected => r == Err::<(), EphemerisTableError>(
                    EphemerisTableError::BodyIdMismatch { expected, got: t.body_id },
                ),
                _ => r is Ok,
            }),
            r is Err ==> final(self)@ == old(self)@,
            r is Ok ==> spec_from_bytes(bytes@) is Ok && final(self)@.contains_key(id)
                && final(self)@[id] == spec_from_bytes(bytes@)->Ok_0,
            r is Ok ==> final(self)@.dom() == old(self)@.dom().insert(id),
            forall|other: CelestialBodyId|
                other != id && #[trigger] old(self)@.contains_key(other) ==> final(self)@[other]
                    == old(self)@[other],
    {
        let table = match EphemerisTable::from_bytes(bytes) {
            Ok(t) => t,
            Err(e) => return Err(e),
        };
        if let Some(expected) = stable_body_id(id) {
            if table.body_id != expected {
                return Err(EphemerisTableError::BodyIdMismatch { expected, got: table.body_id });
            }
        }
        let ghost old_view = self@;
        let ghost t = table@;
        let i = slot(id);
        self.tables[i] = Some(table);
        assert(self@ =~= old_view.insert(id, t)) by {
            assert forall|other: CelestialBodyId| other != id implies body_slot(other) != body_slot(
                id,
            ) by {}
        }
        assert(self.wf()) by {
            assert forall|other: CelestialBodyId| #[trigger]
                self.tables@[body_slot(other)] is Some implies table_matches(
                other,
                self.tables@[body_slot(other)]->Some_0@,
            ) by {
                if other != id {
                    assert(body_slot(other) != body_slot(id));
                }
            }
        }
        Ok(())
    }

    pub fn has(&self, id: CelestialBodyId) -> (r: bool)
        requires
            self.wf(),
        ensures
            r == self@.contains_key(id),
    {
        self.tables[slot(id)].is_some()
    }

    /// Returns a reference to the underlying table, if present.
    ///
    /// This is useful for continuity logic (e.g. sample-at-end and compute offsets).
    pub fn table(&self, id: CelestialBodyId) -> (r: Option<&EphemerisTable>)
        requires
            self.wf(),
        ensures
            r is Some == self@.contains_key(id),
            r matches Some(t) ==> t@ == self@[id],
            // every stored table carries the stable id of the body it is stored for
            r matches Some(t) ==> table_matches(id, t@),
    {
        self.tables[slot(id)].as_ref()
    }

    /// Load the table of each candidate body out of its bytes, in order.
    ///
    /// Fails with the error of the first candidate whose bytes are not a
    /// valid table of that body.
    pub fn load_embedded(candidates: &[(CelestialBodyId, &[u8])]) -> (r: Result<
        Self,
        EphemerisTableError,
    >)
        requires
            forall|i: int| 0 <= i < candidates@.len() ==> fits_layout(#[trigger] candidates@[i].1@),
        ensures
            match (r, spec_load_all(candidates_view(candidates@), Map::empty())) {
                (Ok(t), Ok(m)) => t.wf() && t@ == m,
                (Err(e), Err(f)) => e == f,
                _ => false,
            },
            (r matches Ok(t) ==> forall|i: int|
                0 <= i < candidates@.len() ==> t@.contains_key(#[trigger] candidates@[i].0)),
            (r matches Ok(t) ==> forall|id: CelestialBodyId| #[trigger]
                t@.contains_key(id) ==> exists|i: int|
                    0 <= i < candidates@.len() && #[trigger] candidates@[i].0 == id),
    {
        let ghost cs = candidates_view(candidates@);
        let mut tables = Self::new();
        let n = candidates.len();
        let mut i: usize = 0;
        assert(cs.skip(0) =~= cs);
        while i < n
            invariant
                n == candidates@.len(),
                cs == candidates_view(candidates@),
                forall|k: int| 0 <= k < candidates@.len() ==> fits_layout(#[trigger] candidates@[k].1@),
                0 <= i <= n,
                tables.wf(),
                spec_load_all(cs, Map::empty()) == spec_load_all(cs.skip(i as int), tables@),
            decreases n - i,
        {
            let (id, bytes) = candidates[i];
            assert(cs.skip(i as int).drop_first() =~= cs.skip(i + 1));
            assert(cs.skip(i as int)[0] == (id, bytes@));
            match tables.load_table(id, bytes) {
                Ok(()) => {},
                Err(e) => {
                    return Err(e);
                },
            }
            i = i + 1;
        }
        assert(cs.skip(n as int) =~= Seq::<(CelestialBodyId, Seq<u8>)>::empty());
        proof {
            lemma_load_all_covers(cs, Map::empty());
            assert forall|k: int| 0 <= k < candidates@.len() implies cs[k].0
                == #[trigger] candidates@[k].0 by {}
        }
        Ok(tables)
    }
}


/// Loading a table is read back by a lookup: a successful load stores for
/// `id` exactly the table read out of the bytes and leaves the tables of all
/// other bodies as they were; a failed load (bytes that are no valid table,
/// or the table of another body) changes nothing.
pub proof fn lemma_load_then_lookup(
    id: CelestialBodyId,
    bytes: Seq<u8>,
    acc: Map<CelestialBodyId, TableModel>,
    other: CelestialBodyId,
)
    ensures
        (spec_load_one(id, bytes, acc) matches Ok(m) ==> {
            &&& spec_from_bytes(bytes) matches Ok(t) && m.contains_key(id) && m[id] == t
            &&& table_matches(id, m[id])
            &&& other != id ==> m.contains_key(other) == acc.contains_key(other) && (
            acc.contains_key(other) ==> m[other] == acc[other])
        }),
        spec_load_one(id, bytes, acc) is Err <==> (spec_from_bytes(bytes) is Err || (
        spec_from_bytes(bytes) matches Ok(t) && spec_stable_body_id(id) matches Some(expected)
            && t.body_id != expected)),
{
}


/// Loading a list of tables, when it succeeds, gives every candidate body a
/// table, keeps the tables loaded before, and gives tables to no other body.
pub proof fn lemma_load_all_covers(
    cands: Seq<(CelestialBodyId, Seq<u8>)>,
    acc: Map<CelestialBodyId, TableModel>,
)
    ensures
        (spec_load_all(cands, acc) matches Ok(m) ==> {
            &&& forall|id: CelestialBodyId| acc.contains_key(id) ==> #[trigger] m.contains_key(id)
            &&& forall|i: int| 0 <= i < cands.len() ==> m.contains_key(#[trigger] cands[i].0)
            &&& forall|id: CelestialBodyId| #[trigger]
                m.contains_key(id) ==> acc.contains_key(id) || exists|i: int|
                    0 <= i < cands.len() && #[trigger] cands[i].0 == id
        }),
    decreases cands.len(),
{
    if cands.len() > 0 {
        if let Ok(m1) = spec_load_one(cands[0].0, cands[0].1, acc) {
            let rest = cands.drop_first();
            lemma_load_all_covers(rest, m1);
            if let Ok(m) = spec_load_all(cands, acc) {
                assert(m1.contains_key(cands[0].0));
                assert forall|i: int| 0 <= i < cands.len() implies m.contains_key(
                    #[trigger] cands[i].0,
                ) by {
                    if i > 0 {
                        assert(cands[i] == rest[i - 1]);
                    }
                }
                assert forall|id: CelestialBodyId| #[trigger]
                    m.contains_key(id) implies acc.contains_key(id) || exists|i: int|
                    0 <= i < cands.len() && #[trigger] cands[i].0 == id by {
                    if !acc.contains_key(id) {
                        if id == cands[0].0 {
                            assert(cands[0].0 == id);
                        } else {
                            assert(!m1.contains_key(id));
                            let j = choose|j: int| 0 <= j < rest.len() && #[trigger] rest[j].0 == id;
                            assert(cands[j + 1] == rest[j]);
                        }
                    }
                }
            }
        }
    }
}

} // verus!
