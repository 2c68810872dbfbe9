use deorbiting::prediction::{
    mark_prediction_dirty, should_run_prediction, track_selection_changes, PredictionState,
    TrajectoryCache,
};

/// Integrator state from which a prediction continues.
#[derive(Clone, Debug, PartialEq)]
struct ContinuationState {
    pos: (f64, f64),
    vel: (f64, f64),
    acc: (f64, f64),
    dt: f64,
    sim_t: f64,
    steps: usize,
}

#[test]
fn test_trajectory_cache_empty_cannot_extend() {
    let cache: TrajectoryCache<ContinuationState> = TrajectoryCache::default();
    let entity = 1u64;
    // Empty cache cannot extend
    assert!(!cache.can_extend(entity, 0));
}

#[test]
fn test_trajectory_cache_store_and_check() {
    let mut cache = TrajectoryCache::default();
    let entity = 1u64;
    let deflector_hash = 12345u64;

    // Store continuation
    let continuation = ContinuationState {
        pos: (1e11, 0.0),
        vel: (0.0, 3e4),
        acc: (-0.006, 0.0),
        dt: 3600.0,
        sim_t: 0.0,
        steps: 1000,
    };

    cache.store_continuation(entity, continuation.clone(), deflector_hash, 0.0f64.to_bits());

    // Can extend with same hash
    assert!(cache.can_extend(entity, deflector_hash));

    // Cannot extend with different hash
    assert!(!cache.can_extend(entity, deflector_hash + 1));

    // Other entity cannot extend
    assert!(!cache.can_extend(2, deflector_hash));

    assert_eq!(cache.get_continuation(entity), Some(&continuation));
}

#[test]
fn test_trajectory_cache_invalidate_entity() {
    let mut cache = TrajectoryCache::default();
    let entity = 1u64;

    let continuation = ContinuationState {
        pos: (1e11, 0.0),
        vel: (0.0, 3e4),
        acc: (0.0, 0.0),
        dt: 3600.0,
        sim_t: 0.0,
        steps: 100,
    };

    cache.store_continuation(entity, continuation, 0, 0);
    assert!(cache.can_extend(entity, 0));

    cache.invalidate_entity(entity);
    assert!(!cache.can_extend(entity, 0));
}

#[test]
fn test_trajectory_cache_mark_terminal() {
    let mut cache = TrajectoryCache::default();
    let entity = 1u64;

    let continuation = ContinuationState {
        pos: (1e11, 0.0),
        vel: (0.0, 3e4),
        acc: (0.0, 0.0),
        dt: 3600.0,
        sim_t: 0.0,
        steps: 100,
    };

    cache.store_continuation(entity, continuation, 0, 0);
    assert!(cache.can_extend(entity, 0));

    cache.mark_terminal(entity);
    // Terminal entries cannot be extended
    assert!(!cache.can_extend(entity, 0));
    assert!(cache.get_continuation(entity).is_none());
}

#[test]
fn test_trajectory_cache_cleanup_stale() {
    let mut cache = TrajectoryCache::default();

    let e1 = 1u64;
    let e2 = 2u64;
    let e3 = 3u64;

    let cont = ContinuationState {
        pos: (0.0, 0.0),
        vel: (0.0, 0.0),
        acc: (0.0, 0.0),
        dt: 1.0,
        sim_t: 0.0,
        steps: 0,
    };

    cache.store_continuation(e1, cont.clone(), 0, 0);
    cache.store_continuation(e2, cont.clone(), 0, 0);
    cache.store_continuation(e3, cont.clone(), 0, 0);

    // Cleanup - only e1 and e2 are valid
    cache.cleanup_stale_entries(&[e1, e2]);

    assert!(cache.can_extend(e1, 0));
    assert!(cache.can_extend(e2, 0));
    assert!(!cache.can_extend(e3, 0)); // Was cleaned up
}

#[test]
fn test_trajectory_cache_restore_after_terminal_and_invalidate_all() {
    let mut cache: TrajectoryCache<u32> = TrajectoryCache::default();
    cache.store_continuation(7, 1, 99, 0);
    cache.mark_terminal(7);
    assert!(!cache.can_extend(7, 99));
    // storing again makes the entry extendable again
    cache.store_continuation(7, 2, 99, 0);
    assert!(cache.can_extend(7, 99));
    assert_eq!(cache.get_continuation(7), Some(&2));
    // marking an unknown entity terminal changes nothing
    cache.mark_terminal(8);
    assert!(cache.get_continuation(8).is_none());
    cache.invalidate();
    assert!(!cache.can_extend(7, 99));
}

#[test]
fn test_prediction_state_scheduling() {
    let mut state = PredictionState::default();
    assert!(!should_run_prediction(&state, 10));
    // a zero interval runs every frame
    assert!(should_run_prediction(&state, 0));

    mark_prediction_dirty(&mut state);
    assert!(should_run_prediction(&state, 10));

    state.begin_run();
    assert_eq!(state.frame_counter, 1);
    state.finish_run(42.0f64.to_bits());
    assert!(!should_run_prediction(&state, 10));
    assert_eq!(state.last_sim_time, 42.0f64.to_bits());

    // selecting an asteroid triggers a run; selecting it again does not
    track_selection_changes(Some(5), &mut state);
    assert!(should_run_prediction(&state, 10));
    assert_eq!(state.last_selected, Some(5));
    state.finish_run(0);
    track_selection_changes(Some(5), &mut state);
    assert!(!should_run_prediction(&state, 10));
    track_selection_changes(None, &mut state);
    assert!(should_run_prediction(&state, 10));
    assert_eq!(state.last_selected, None);
}
