use deorbiting::input::DragState;

#[test]
fn test_drag_auto_pauses_running_simulation() {
    let mut drag = DragState::new((0.0f64, 0.0f64));
    let mut paused = false;
    drag.start_drag(7, (1.0, -2.0), &mut paused);
    assert!(paused);
    assert!(drag.auto_paused);
    assert_eq!(drag.dragging, Some(7));
    assert_eq!(drag.drag_offset, (1.0, -2.0));

    // releasing ends the drag but keeps the simulation paused
    assert_eq!(drag.end_drag(), Some(7));
    assert_eq!(drag.dragging, None);
    assert!(drag.auto_paused);
    assert_eq!(drag.end_drag(), None);
}

#[test]
fn test_drag_of_paused_simulation_is_not_auto_paused() {
    let mut drag = DragState::new(0u8);
    let mut paused = true;
    drag.start_drag(3, 1, &mut paused);
    assert!(paused);
    assert!(!drag.auto_paused);
    assert_eq!(drag.dragging, Some(3));
}
