//! Dragging asteroids with the mouse.
//!
//! Picking the asteroid under the cursor and moving it are floating-point
//! work of the application; this module keeps which asteroid is being
//! dragged and whether the drag paused the simulation.

use vstd::prelude::*;

verus! {

/// State of an asteroid drag.
///
/// `O` is the offset from the asteroid's centre to the cursor at the start
/// of the drag.
pub struct DragState<O> {
    /// Entity currently being dragged, if any (64-bit identifier).
    pub dragging: Option<u64>,
    /// Offset from asteroid center to mouse position at drag start.
    pub drag_offset: O,
    /// Whether we auto-paused when starting drag.
    pub auto_paused: bool,
}

impl<O> DragState<O> {
    /// No drag in progress, with the given offset as the stored one.
    pub fn new(drag_offset: O) -> (r: Self)
        ensures
            r.dragging is None,
            r.drag_offset == drag_offset,
            !r.auto_paused,
    {
        DragState { dragging: None, drag_offset, auto_paused: false }
    }

    /// Start dragging `entity`, pausing the simulation (`sim_paused`) if it
    /// is running; the drag remembers whether it was the drag that paused it.
    pub fn start_drag(&mut self, entity: u64, offset: O, sim_paused: &mut bool)
        ensures
            *final(sim_paused),
            final(self).dragging == Some(entity),
            final(self).drag_offset == offset,
            final(self).auto_paused == !*old(sim_paused),
    {
        // Auto-pause if simulation is running
        let was_paused = *sim_paused;
        if !was_paused {
            *sim_paused = true;
            self.auto_paused = true;
        } else {
            self.auto_paused = false;
        }
        self.dragging = Some(entity);
        self.drag_offset = offset;
    }

    /// End the drag in progress, if any, and give the entity that was dragged.
    ///
    /// The pause stays: the user resumes the simulation by hand.
    pub fn end_drag(&mut self) -> (r: Option<u64>)
        ensures
            r == old(self).dragging,
            final(self).dragging is None,
            final(self).drag_offset == old(self).drag_offset,
            final(self).auto_paused == old(self).auto_paused,
    {
        let r = self.dragging;
        self.dragging = None;
        r
    }
}

} // verus!
