//! Mission logic of interceptors launched from Earth to deflect asteroids.
//!
//! Interceptors fly to their target and act once on arrival: a kinetic or
//! nuclear payload changes the target's velocity, a splitting payload breaks
//! it in two. The flight and the delta-v are floating-point work of the
//! application; this module decides what happens to an interceptor.

use vstd::prelude::*;

verus! {

/// State of an interceptor mission.
#[derive(Clone, Copy, Debug, PartialEq, Eq, Structural)]
pub enum InterceptorState {
    /// Interceptor is traveling to target.
    InFlight,
    /// Interceptor has arrived and applied delta-v.
    Arrived,
    /// Mission was cancelled.
    Cancelled,
}

/// What an interceptor does to its target in one update.
#[derive(Clone, Copy, Debug, PartialEq, Eq, Structural)]
pub enum ArrivalEffect {
    /// Nothing: still in flight, or the mission is over.
    Wait,
    /// The target no longer exists; the mission is cancelled.
    TargetLost,
    /// The splitting payload breaks the target into two fragments.
    SplitTarget,
    /// The payload's delta-v is applied to the target.
    DeflectTarget,
}

/// The outcome of one update of an interceptor.
#[derive(Clone, Copy, Debug, PartialEq, Eq, Structural)]
pub struct InterceptorUpdate {
    /// The mission state after the update.
    pub state: InterceptorState,
    /// What the interceptor does to its target.
    pub effect: ArrivalEffect,
}

impl InterceptorUpdate {
    /// The interceptor entity is removed from the scene: its mission just ended.
    pub open spec fn despawns(self) -> bool {
        self.effect != ArrivalEffect::Wait
    }
}

/// One update of an interceptor in state `state`: `arrived` tells whether the
/// simulation time has reached its arrival time, `target_found` whether its
/// target asteroid still exists, and `splitting` whether its payload splits
/// the target.
pub open spec fn spec_update_interceptor(
    state: InterceptorState,
    arrived: bool,
    target_found: bool,
    splitting: bool,
) -> InterceptorUpdate {
    if state != InterceptorState::InFlight || !arrived {
        InterceptorUpdate { state, effect: ArrivalEffect::Wait }
    } else if !target_found {
        InterceptorUpdate { state: InterceptorState::Cancelled, effect: ArrivalEffect::TargetLost }
    } else if splitting {
        InterceptorUpdate { state: InterceptorState::Arrived, effect: ArrivalEffect::SplitTarget }
    } else {
        InterceptorUpdate { state: InterceptorState::Arrived, effect: ArrivalEffect::DeflectTarget }
    }
}

/// Decide what an interceptor does this update (see
/// [`spec_update_interceptor`]).
pub fn update_interceptor(
    state: InterceptorState,
    arrived: bool,
    target_found: bool,
    splitting: bool,
) -> (r: InterceptorUpdate)
    ensures
        r == spec_update_interceptor(state, arrived, target_found, splitting),
        state != InterceptorState::InFlight || !arrived ==> r.state == state && r.effect
            == ArrivalEffect::Wait,
        state == InterceptorState::InFlight && arrived && !target_found ==> r.state
            == InterceptorState::Cancelled && r.effect == ArrivalEffect::TargetLost,
        state == InterceptorState::InFlight && arrived && target_found && splitting ==> r.state
            == InterceptorState::Arrived && r.effect == ArrivalEffect::SplitTarget,
        state == InterceptorState::InFlight && arrived && target_found && !splitting ==> r.state
            == InterceptorState::Arrived && r.effect == ArrivalEffect::DeflectTarget,
{
    // Skip if not in flight
    if state != InterceptorState::InFlight {
        return InterceptorUpdate { state, effect: ArrivalEffect::Wait };
    }
    // Check if arrived
    if !arrived {
        return InterceptorUpdate { state, effect: ArrivalEffect::Wait };
    }
    if !target_found {
        // Target destroyed or missing
        return InterceptorUpdate {
            state: InterceptorState::Cancelled,
            effect: ArrivalEffect::TargetLost,
        };
    }
    let effect = if splitting {
        ArrivalEffect::SplitTarget
    } else {
        ArrivalEffect::DeflectTarget
    };
    // Mark as arrived
    InterceptorUpdate { state: InterceptorState::Arrived, effect }
}

/// Resource for tracking launched interceptors.
pub struct InterceptorRegistry {
    /// Count of launched interceptors.
    pub total_launched: u32,
}

impl Default for InterceptorRegistry {
    fn default() -> (r: Self)
        ensures
            r.total_launched == 0,
    {
        InterceptorRegistry { total_launched: 0 }
    }
}

impl InterceptorRegistry {
    /// Count a launch and give the new interceptor its identifier: the
    /// number of interceptors launched so far, this one included.
    pub fn register_launch(&mut self) -> (id: u32)
        requires
            old(self).total_launched < u32::MAX,
        ensures
            final(self).total_launched == old(self).total_launched + 1,
            id == final(self).total_launched,
    {
        self.total_launched = self.total_launched + 1;
        self.total_launched
    }
}

/// A mission that is over stays over: an interceptor that has arrived or
/// been cancelled never acts again.
pub proof fn lemma_interceptor_finished_is_final(
    state: InterceptorState,
    arrived: bool,
    target_found: bool,
    splitting: bool,
)
    requires
        state != InterceptorState::InFlight,
    ensures
        spec_update_interceptor(state, arrived, target_found, splitting) == (InterceptorUpdate {
            state,
            effect: ArrivalEffect::Wait,
        }),
{
}

/// An interceptor acts on its target at most once, exactly when its mission
/// ends, and it only delivers its payload to a target that still exists.
pub proof fn lemma_interceptor_acts_once(
    state: InterceptorState,
    arrived: bool,
    target_found: bool,
    splitting: bool,
)
    ensures
        ({
            let u = spec_update_interceptor(state, arrived, target_found, splitting);
            &&& u.despawns() <==> (state == InterceptorState::InFlight && u.state
                != InterceptorState::InFlight)
            &&& (u.effect == ArrivalEffect::SplitTarget || u.effect == ArrivalEffect::DeflectTarget)
                ==> target_found && arrived && u.state == InterceptorState::Arrived
            &&& u.despawns() ==> spec_update_interceptor(
                u.state,
                arrived,
                target_found,
                splitting,
            ).effect == ArrivalEffect::Wait
        }),
{
}

/// An interceptor in flight that has arrived always ends its mission on that
/// update: a missing target cancels it (whatever its payload), otherwise it
/// arrives and splits its target with a splitting payload or deflects it with
/// any other.
pub proof fn lemma_interceptor_arrival_ends_mission(
    arrived: bool,
    target_found: bool,
    splitting: bool,
)
    requires
        arrived,
    ensures
        ({
            let u = spec_update_interceptor(
                InterceptorState::InFlight,
                arrived,
                target_found,
                splitting,
            );
            &&& u.state != InterceptorState::InFlight
            &&& u.despawns()
            &&& !target_found ==> u.state == InterceptorState::Cancelled && u.effect
                == ArrivalEffect::TargetLost
            &&& target_found && splitting ==> u.state == InterceptorState::Arrived && u.effect
                == ArrivalEffect::SplitTarget
            &&& target_found && !splitting ==> u.state == InterceptorState::Arrived && u.effect
                == ArrivalEffect::DeflectTarget
        }),
{
}

/// An interceptor that has not arrived yet keeps flying and does nothing.
pub proof fn lemma_interceptor_waits_in_flight(target_found: bool, splitting: bool)
    ensures
        spec_update_interceptor(InterceptorState::InFlight, false, target_found, splitting) == (
        InterceptorUpdate { state: InterceptorState::InFlight, effect: ArrivalEffect::Wait }),
{
}

} // verus!
