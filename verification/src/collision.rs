//! Collision bookkeeping for asteroid-celestial body impacts.
//!
//! When an asteroid hits a body it is immediately marked as colliding
//! (excluded from physics) and a notification is queued for display. The
//! events themselves carry floating-point impact data and are owned by the
//! application; this state only orders and counts them.

use std::collections::{HashSet, VecDeque};
use vstd::prelude::*;

verus! {

broadcast use vstd::std_specs::hash::group_hash_axioms;

/// Taking the front of a queue: the first element, if any, and what is left.
pub open spec fn spec_pop<E>(q: Seq<E>) -> (Option<E>, Seq<E>) {
    if q.len() == 0 {
        (None, q)
    } else {
        (Some(q[0]), q.drop_first())
    }
}

/// State tracking collisions for UI display and physics exclusion.
///
/// Uses a queue-based architecture to handle multiple collisions properly:
/// - `pending_notifications`: Queue of collision events waiting to be displayed
/// - `colliding_entities`: Set of entities marked as colliding (excluded from physics)
pub struct CollisionState<E> {
    /// Queue of collision notifications to display (FIFO order).
    pub pending_notifications: VecDeque<E>,
    /// Entities currently colliding (excluded from physics until despawned),
    /// by their 64-bit identifiers.
    pub colliding_entities: HashSet<u64>,
}

impl<E> Default for CollisionState<E> {
    fn default() -> (r: Self)
        ensures
            r.pending_notifications@ == Seq::<E>::empty(),
            r.colliding_entities@ == Set::<u64>::empty(),
    {
        CollisionState { pending_notifications: VecDeque::new(), colliding_entities: HashSet::new() }
    }
}

impl<E> CollisionState<E> {
    /// Clear all collision state (e.g., when resetting scenario).
    pub fn clear(&mut self)
        ensures
            final(self).pending_notifications@ == Seq::<E>::empty(),
            final(self).colliding_entities@ == Set::<u64>::empty(),
    {
        self.pending_notifications.clear();
        self.colliding_entities.clear();
    }

    /// Record a collision: mark entity as colliding and queue notification.
    pub fn push_collision(&mut self, entity: u64, event: E)
        ensures
            final(self).colliding_entities@ == old(self).colliding_entities@.insert(entity),
            final(self).pending_notifications@ == old(self).pending_notifications@.push(event),
    {
        self.colliding_entities.insert(entity);
        self.pending_notifications.push_back(event);
    }

    /// Pop the next notification from the queue (for UI display).
    ///
    /// Entities stay marked as colliding.
    pub fn pop_notification(&mut self) -> (r: Option<E>)
        ensures
            final(self).colliding_entities@ == old(self).colliding_entities@,
            (r, final(self).pending_notifications@) == spec_pop(old(self).pending_notifications@),
            old(self).pending_notifications@.len() == 0 ==> r is None
                && final(self).pending_notifications@ == old(self).pending_notifications@,
            old(self).pending_notifications@.len() > 0 ==> r == Some(
                old(self).pending_notifications@[0],
            ) && final(self).pending_notifications@ == old(
                self,
            ).pending_notifications@.subrange(1, old(self).pending_notifications@.len() as int),
    {
        let r = self.pending_notifications.pop_front();
        proof {
            if old(self).pending_notifications@.len() > 0 {
                assert(self.pending_notifications@ =~= old(
                    self,
                ).pending_notifications@.drop_first());
            }
        }
        r
    }

    /// Check if there are pending notifications.
    pub fn has_pending(&self) -> (r: bool)
        ensures
            r == (self.pending_notifications@.len() > 0),
    {
        self.pending_notifications.len() != 0
    }

    /// Check if an entity is marked as colliding.
    pub fn is_colliding(&self, entity: u64) -> (r: bool)
        ensures
            r == self.colliding_entities@.contains(entity),
    {
        self.colliding_entities.contains(&entity)
    }
}

/// Notifications come out in the order their collisions were recorded: a
/// notification pushed on an empty queue is the next one popped, and pushing
/// behind a non-empty queue does not change which one comes out first.
pub proof fn lemma_notifications_fifo<E>(q: Seq<E>, e: E)
    ensures
        spec_pop(Seq::<E>::empty().push(e)) == (Some(e), Seq::<E>::empty()),
        q.len() > 0 ==> spec_pop(q.push(e)) == (Some(q[0]), spec_pop(q).1.push(e)),
{
    assert(Seq::<E>::empty().push(e).drop_first() =~= Seq::<E>::empty());
    if q.len() > 0 {
        assert(q.push(e).drop_first() =~= q.drop_first().push(e));
    }
}

} // verus!
