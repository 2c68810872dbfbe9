use deorbiting::collision::CollisionState;

/// A collision notification as the simulation queues it.
#[derive(Clone, Debug)]
struct Notice {
    asteroid_name: String,
}

fn make_event(name: &str) -> Notice {
    Notice { asteroid_name: name.to_string() }
}

#[test]
fn test_collision_state_push_pop_fifo() {
    let mut state: CollisionState<Notice> = CollisionState::default();

    let event1 = make_event("Asteroid-1");
    let event2 = make_event("Asteroid-2");
    let event3 = make_event("Asteroid-3");

    state.push_collision(1, event1);
    state.push_collision(2, event2);
    state.push_collision(3, event3);

    // Should have 3 pending
    assert!(state.has_pending());
    assert_eq!(state.pending_notifications.len(), 3);

    // Pop in FIFO order
    let popped1 = state.pop_notification().unwrap();
    assert_eq!(popped1.asteroid_name, "Asteroid-1");

    let popped2 = state.pop_notification().unwrap();
    assert_eq!(popped2.asteroid_name, "Asteroid-2");

    let popped3 = state.pop_notification().unwrap();
    assert_eq!(popped3.asteroid_name, "Asteroid-3");

    // Queue should be empty now
    assert!(!state.has_pending());
    assert!(state.pop_notification().is_none());
}

#[test]
fn test_collision_state_colliding_entities() {
    let mut state: CollisionState<Notice> = CollisionState::default();

    let entity1 = 1u64;
    let entity2 = 2u64;
    let entity3 = 3u64;

    // Initially no entities are colliding
    assert!(!state.is_colliding(entity1));
    assert!(!state.is_colliding(entity2));

    // Push collision marks entity as colliding immediately
    state.push_collision(entity1, make_event("A1"));
    assert!(state.is_colliding(entity1));
    assert!(!state.is_colliding(entity2));

    state.push_collision(entity2, make_event("A2"));
    assert!(state.is_colliding(entity1));
    assert!(state.is_colliding(entity2));
    assert!(!state.is_colliding(entity3));
}

#[test]
fn test_collision_state_clear() {
    let mut state: CollisionState<Notice> = CollisionState::default();

    state.push_collision(1, make_event("A1"));
    state.push_collision(2, make_event("A2"));

    assert!(state.has_pending());
    assert!(state.is_colliding(1));
    assert!(state.is_colliding(2));

    state.clear();

    // Everything should be cleared
    assert!(!state.has_pending());
    assert!(!state.is_colliding(1));
    assert!(!state.is_colliding(2));
    assert!(state.pending_notifications.is_empty());
    assert!(state.colliding_entities.is_empty());
}

#[test]
fn test_collision_state_default() {
    let state: CollisionState<Notice> = CollisionState::default();
    assert!(!state.has_pending());
    assert!(state.pending_notifications.is_empty());
    assert!(state.colliding_entities.is_empty());
}

#[test]
fn test_collision_state_multiple_entities_independent() {
    let mut state: CollisionState<Notice> = CollisionState::default();

    let e1 = 1u64;
    let e2 = 2u64;
    let e3 = 3u64;

    // Add e1 and e2 as colliding
    state.push_collision(e1, make_event("A1"));
    state.push_collision(e2, make_event("A2"));

    // e3 should not be affected
    assert!(!state.is_colliding(e3));
    assert!(state.is_colliding(e1));
    assert!(state.is_colliding(e2));

    // Pop one notification - entities should still be colliding
    let _ = state.pop_notification();
    assert!(state.is_colliding(e1));
    assert!(state.is_colliding(e2));
}

#[test]
fn test_collision_state_pop_returns_none_when_empty() {
    let mut state: CollisionState<Notice> = CollisionState::default();
    assert!(state.pop_notification().is_none());

    // Add one and pop it
    state.push_collision(1, make_event("A"));
    assert!(state.pop_notification().is_some());

    // Should be empty again
    assert!(state.pop_notification().is_none());
}

#[test]
fn test_collision_fifo_interleaved_pushes() {
    let mut state: CollisionState<u32> = CollisionState::default();
    state.push_collision(10, 1);
    state.push_collision(11, 2);
    assert_eq!(state.pop_notification(), Some(1));
    state.push_collision(12, 3);
    assert_eq!(state.pop_notification(), Some(2));
    assert_eq!(state.pop_notification(), Some(3));
    assert_eq!(state.pop_notification(), None);
    // the same entity colliding twice is one colliding entity
    state.push_collision(10, 4);
    assert_eq!(state.colliding_entities.len(), 3);
    assert_eq!(state.pending_notifications.len(), 1);
}
