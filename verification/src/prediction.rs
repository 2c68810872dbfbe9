//! Scheduling and caching of trajectory predictions.
//!
//! The numerical integration of predicted trajectories is floating-point work
//! done by the application. This module decides when a prediction must run
//! and keeps, per asteroid, the state from which a prediction may be
//! extended instead of recomputed.

use std::collections::HashMap;
use vstd::prelude::*;

verus! {

broadcast use vstd::std_specs::hash::group_hash_axioms;

/// State for the prediction scheduler.
///
/// Tracks when predictions need recalculation and allows external
/// systems (like velocity handle) to trigger updates.
pub struct PredictionState {
    /// Set when prediction needs recalculation.
    pub needs_update: bool,
    /// Frame counter for periodic updates.
    pub frame_counter: u32,
    /// Last selected asteroid entity (to detect selection changes).
    pub last_selected: Option<u64>,
    /// Last simulation time when prediction was calculated
    /// (IEEE-754 bit pattern of seconds since J2000).
    pub last_sim_time: u64,
}

impl Default for PredictionState {
    fn default() -> (r: Self)
        ensures
            !r.needs_update,
            r.frame_counter == 0,
            r.last_selected is None,
            r.last_sim_time == 0,
    {
        PredictionState { needs_update: false, frame_counter: 0, last_selected: None, last_sim_time: 0 }
    }
}

/// Mark prediction as needing update.
/// Call this when velocity is changed (e.g., from velocity handle drag).
pub fn mark_prediction_dirty(state: &mut PredictionState)
    ensures
        final(state).needs_update,
        final(state).frame_counter == old(state).frame_counter,
        final(state).last_selected == old(state).last_selected,
        final(state).last_sim_time == old(state).last_sim_time,
{
    state.needs_update = true;
}

/// Track selection changes to trigger prediction recalculation.
///
/// `current_entity` is the selected asteroid, if an asteroid is selected.
pub fn track_selection_changes(current_entity: Option<u64>, state: &mut PredictionState)
    ensures
        final(state).last_selected == current_entity,
        final(state).needs_update == (old(state).needs_update || current_entity
            != old(state).last_selected),
        final(state).frame_counter == old(state).frame_counter,
        final(state).last_sim_time == old(state).last_sim_time,
{
    // Check for selection change
    if current_entity != state.last_selected {
        state.needs_update = true;
        state.last_selected = current_entity;
    }
}

/// A prediction is due: something marked it dirty, or `update_interval`
/// frames have been counted.
pub open spec fn spec_should_run(state: PredictionState, update_interval: u32) -> bool {
    state.needs_update || state.frame_counter >= update_interval
}

/// Run condition: should we run prediction this frame?
pub fn should_run_prediction(state: &PredictionState, update_interval: u32) -> (r: bool)
    ensures
        r == spec_should_run(*state, update_interval),
        r == (state.needs_update || state.frame_counter >= update_interval),
{
    state.needs_update || state.frame_counter >= update_interval
}

impl PredictionState {
    /// Count the frame in which a prediction run begins.
    pub fn begin_run(&mut self)
        requires
            old(self).frame_counter < u32::MAX,
        ensures
            final(self).frame_counter == old(self).frame_counter + 1,
            final(self).needs_update == old(self).needs_update,
            final(self).last_selected == old(self).last_selected,
            final(self).last_sim_time == old(self).last_sim_time,
    {
        self.frame_counter = self.frame_counter + 1;
    }

    /// Mark prediction as up-to-date at simulation time `sim_time`
    /// (IEEE-754 bit pattern).
    pub fn finish_run(&mut self, sim_time: u64)
        ensures
            !final(self).needs_update,
            final(self).frame_counter == 0,
            final(self).last_sim_time == sim_time,
            final(self).last_selected == old(self).last_selected,
    {
        self.needs_update = false;
        self.frame_counter = 0;
        self.last_sim_time = sim_time;
    }
}

/// Per-entity cache entry for trajectory prediction.
///
/// `C` is the integrator state from which a prediction continues.
pub struct EntityCacheEntry<C> {
    /// Continuation state for extending trajectory
    pub continuation: Option<C>,
    /// Whether trajectory reached a terminal state (collision or escape)
    pub is_terminal: bool,
    /// Hash of active deflector configuration (for invalidation)
    pub deflector_hash: u64,
    /// Simulation time when prediction started (IEEE-754 bit pattern)
    pub prediction_start_time: u64,
}

/// Cache for incremental trajectory extension for all asteroids.
///
/// Instead of recomputing the entire trajectory from scratch on each update,
/// the integrator state for each asteroid is kept so that prediction can
/// continue from where it left off.
pub struct TrajectoryCache<C> {
    /// Per-entity cache entries, by entity identifier
    entries: HashMap<u64, EntityCacheEntry<C>>,
}

/// An entry from which a prediction may be extended, for deflectors whose
/// configuration hashes to `deflector_hash`.
pub open spec fn extendable<C>(entry: EntityCacheEntry<C>, deflector_hash: u64) -> bool {
    entry.continuation is Some && entry.deflector_hash == deflector_hash && !entry.is_terminal
}

/// The cache `m` can extend the prediction of `entity` for deflectors whose
/// configuration hashes to `deflector_hash`.
pub open spec fn spec_can_extend<C>(
    m: Map<u64, EntityCacheEntry<C>>,
    entity: u64,
    deflector_hash: u64,
) -> bool {
    m.contains_key(entity) && extendable(m[entity], deflector_hash)
}

/// The cache `m` after storing `continuation` for `entity`.
pub open spec fn spec_stored<C>(
    m: Map<u64, EntityCacheEntry<C>>,
    entity: u64,
    continuation: C,
    deflector_hash: u64,
    start_time: u64,
) -> Map<u64, EntityCacheEntry<C>> {
    m.insert(
        entity,
        EntityCacheEntry {
            continuation: Some(continuation),
            is_terminal: false,
            deflector_hash,
            prediction_start_time: start_time,
        },
    )
}

/// The cache `m` after marking the trajectory of `entity` as terminal.
pub open spec fn spec_marked_terminal<C>(m: Map<u64, EntityCacheEntry<C>>, entity: u64) -> Map<
    u64,
    EntityCacheEntry<C>,
> {
    if m.contains_key(entity) {
        m.insert(
            entity,
            EntityCacheEntry {
                continuation: None,
                is_terminal: true,
                deflector_hash: m[entity].deflector_hash,
                prediction_start_time: m[entity].prediction_start_time,
            },
        )
    } else {
        m
    }
}

impl<C> Default for TrajectoryCache<C> {
    fn default() -> (r: Self)
        ensures
            r@ == Map::<u64, EntityCacheEntry<C>>::empty(),
    {
        TrajectoryCache { entries: HashMap::new() }
    }
}

impl<C> View for TrajectoryCache<C> {
    type V = Map<u64, EntityCacheEntry<C>>;

    closed spec fn view(&self) -> Map<u64, EntityCacheEntry<C>> {
        self.entries@
    }
}

impl<C> TrajectoryCache<C> {
    /// Check if the cache can be used for incremental extension.
    ///
    /// Cache is valid if:
    /// - Entry exists for this entity
    /// - Has continuation state (not terminal)
    /// - Deflector configuration hasn't changed
    pub fn can_extend(&self, entity: u64, deflector_hash: u64) -> (r: bool)
        ensures
            r == spec_can_extend(self@, entity, deflector_hash),
            r == (self@.contains_key(entity) && self@[entity].continuation is Some
                && self@[entity].deflector_hash == deflector_hash && !self@[entity].is_terminal),
    {
        match self.entries.get(&entity) {
            Some(entry) => entry.continuation.is_some() && entry.deflector_hash == deflector_hash
                && !entry.is_terminal,
            None => false,
        }
    }

    /// Get the continuation state for an entity.
    pub fn get_continuation(&self, entity: u64) -> (r: Option<&C>)
        ensures
            r is Some == (self@.contains_key(entity) && self@[entity].continuation is Some),
            r matches Some(c) ==> *c == self@[entity].continuation->Some_0,
    {
        match self.entries.get(&entity) {
            Some(e) => e.continuation.as_ref(),
            None => None,
        }
    }

    /// Invalidate the cache for a specific entity.
    pub fn invalidate_entity(&mut self, entity: u64)
        ensures
            final(self)@ == old(self)@.remove(entity),
    {
        self.entries.remove(&entity);
    }

    /// Invalidate the entire cache (all entities).
    pub fn invalidate(&mut self)
        ensures
            final(self)@ == Map::<u64, EntityCacheEntry<C>>::empty(),
    {
        self.entries.clear();
    }

    /// Clean up entries for entities that no longer exist.
    pub fn cleanup_stale_entries(&mut self, valid_entities: &[u64])
        ensures
            final(self)@ == old(self)@.restrict(valid_entities@.to_set()),
    {
        let ghost old_map = self@;
        let mut kept: HashMap<u64, EntityCacheEntry<C>> = HashMap::new();
        let n = valid_entities.len();
        let mut i: usize = 0;
        while i < n
            invariant
                n == valid_entities@.len(),
                0 <= i <= n,
                kept@ == old_map.restrict(valid_entities@.subrange(0, i as int).to_set()),
                self.entries@ == old_map.remove_keys(valid_entities@.subrange(0, i as int).to_set()),
            decreases n - i,
        {
            let e = valid_entities[i];
            let ghost before = valid_entities@.subrange(0, i as int).to_set();
            assert(valid_entities@.subrange(0, i + 1).to_set() =~= before.insert(e)) by {
                assert(valid_entities@.subrange(0, i + 1) =~= valid_entities@.subrange(
                    0,
                    i as int,
                ).push(e));
                valid_entities@.subrange(0, i as int).lemma_push_to_set_commute(e);
            }
            if let Some(entry) = self.entries.remove(&e) {
                kept.insert(e, entry);
            }
            assert(kept@ =~= old_map.restrict(before.insert(e)));
            assert(self.entries@ =~= old_map.remove_keys(before.insert(e)));
            i = i + 1;
        }
        assert(valid_entities@.subrange(0, n as int) =~= valid_entities@);
        self.entries = kept;
    }

    /// Store the continuation state for later extension.
    ///
    /// The entry of `entity` is replaced by a non-terminal one.
    pub fn store_continuation(
        &mut self,
        entity: u64,
        continuation: C,
        deflector_hash: u64,
        start_time: u64,
    )
        ensures
            final(self)@ == spec_stored(old(self)@, entity, continuation, deflector_hash, start_time),
            final(self)@.contains_key(entity),
            final(self)@[entity].continuation == Some(continuation),
            !final(self)@[entity].is_terminal,
            final(self)@[entity].deflector_hash == deflector_hash,
            final(self)@[entity].prediction_start_time == start_time,
            final(self)@.dom() == old(self)@.dom().insert(entity),
            forall|k: u64|
                k != entity && #[trigger] old(self)@.contains_key(k) ==> final(self)@[k] == old(
                    self,
                )@[k],
    {
        self.entries.insert(
            entity,
            EntityCacheEntry {
                continuation: Some(continuation),
                is_terminal: false,
                deflector_hash,
                prediction_start_time: start_time,
            },
        );
    }

    /// Mark the trajectory for an entity as terminal (collision or escape reached).
    pub fn mark_terminal(&mut self, entity: u64)
        ensures
            final(self)@ == spec_marked_terminal(old(self)@, entity),
            final(self)@.dom() == old(self)@.dom(),
            old(self)@.contains_key(entity) ==> final(self)@[entity].continuation is None
                && final(self)@[entity].is_terminal && final(self)@[entity].deflector_hash == old(
                self,
            )@[entity].deflector_hash && final(self)@[entity].prediction_start_time == old(
                self,
            )@[entity].prediction_start_time,
            forall|k: u64|
                k != entity && #[trigger] old(self)@.contains_key(k) ==> final(self)@[k] == old(
                    self,
                )@[k],
    {
        if let Some(entry) = self.entries.remove(&entity) {
            self.entries.insert(
                entity,
                EntityCacheEntry {
                    continuation: None,
                    is_terminal: true,
                    deflector_hash: entry.deflector_hash,
                    prediction_start_time: entry.prediction_start_time,
                },
            );
        }
    }
}


/// A prediction stored for an entity can be extended exactly while the
/// deflector configuration is the one it was stored with; other entities are
/// not affected.
pub proof fn lemma_store_then_extend<C>(
    m: Map<u64, EntityCacheEntry<C>>,
    entity: u64,
    continuation: C,
    deflector_hash: u64,
    start_time: u64,
    other: u64,
    hash: u64,
)
    ensures
        spec_can_extend(
            spec_stored(m, entity, continuation, deflector_hash, start_time),
            entity,
            hash,
        ) <==> hash == deflector_hash,
        other != entity ==> (spec_can_extend(
            spec_stored(m, entity, continuation, deflector_hash, start_time),
            other,
            hash,
        ) <==> spec_can_extend(m, other, hash)),
{
}

/// A terminal trajectory, an invalidated entry and an entry dropped as stale
/// can no longer be extended, whatever the deflector configuration.
pub proof fn lemma_no_extension_after_end<C>(
    m: Map<u64, EntityCacheEntry<C>>,
    entity: u64,
    valid: Seq<u64>,
    hash: u64,
)
    ensures
        !spec_can_extend(spec_marked_terminal(m, entity), entity, hash),
        !spec_can_extend(m.remove(entity), entity, hash),
        !valid.contains(entity) ==> !spec_can_extend(m.restrict(valid.to_set()), entity, hash),
        valid.contains(entity) ==> (spec_can_extend(m.restrict(valid.to_set()), entity, hash)
            <==> spec_can_extend(m, entity, hash)),
{
}

/// Marking the prediction dirty makes the next frame run a prediction,
/// whatever the update interval; right after a finished run, a prediction
/// runs again only once something marks it dirty (or the interval is zero).
pub proof fn lemma_dirty_runs_prediction(state: PredictionState, update_interval: u32)
    ensures
        state.needs_update ==> spec_should_run(state, update_interval),
        !state.needs_update && state.frame_counter == 0 ==> (spec_should_run(
            state,
            update_interval,
        ) <==> update_interval == 0),
{
}

/// Storing replaces: after storing continuation `c` for an entity, its entry
/// holds `c` (non-terminal, with the given configuration and start time),
/// whatever the cache held for it before; a second store replaces the first,
/// and the entries of other entities are untouched.
pub proof fn lemma_store_replaces<C>(
    m: Map<u64, EntityCacheEntry<C>>,
    entity: u64,
    first: C,
    second: C,
    hash1: u64,
    hash2: u64,
    start1: u64,
    start2: u64,
    other: u64,
)
    ensures
        spec_stored(m, entity, first, hash1, start1).contains_key(entity),
        spec_stored(m, entity, first, hash1, start1)[entity].continuation == Some(first),
        !spec_stored(m, entity, first, hash1, start1)[entity].is_terminal,
        spec_stored(m, entity, first, hash1, start1)[entity].deflector_hash == hash1,
        spec_stored(m, entity, first, hash1, start1)[entity].prediction_start_time == start1,
        spec_stored(
            spec_stored(m, entity, first, hash1, start1),
            entity,
            second,
            hash2,
            start2,
        )[entity].continuation == Some(second),
        other != entity ==> spec_stored(m, entity, first, hash1, start1).contains_key(other)
            == m.contains_key(other),
        other != entity && m.contains_key(other) ==> spec_stored(
            m,
            entity,
            first,
            hash1,
            start1,
        )[other] == m[other],
{
}

/// Marking a trajectory terminal drops its continuation and keeps its
/// configuration and start time; an entity with no entry gets none.
pub proof fn lemma_mark_terminal_entry<C>(m: Map<u64, EntityCacheEntry<C>>, entity: u64)
    ensures
        spec_marked_terminal(m, entity).dom() == m.dom(),
        m.contains_key(entity) ==> spec_marked_terminal(m, entity)[entity].continuation is None
            && spec_marked_terminal(m, entity)[entity].is_terminal && spec_marked_terminal(
            m,
            entity,
        )[entity].deflector_hash == m[entity].deflector_hash && spec_marked_terminal(
            m,
            entity,
        )[entity].prediction_start_time == m[entity].prediction_start_time,
{
}

} // verus!
