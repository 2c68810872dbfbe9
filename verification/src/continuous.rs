//! Mission logic of continuous deflection methods.
//!
//! Unlike instant deflection, continuous methods (ion beam shepherd, gravity
//! tractor, laser ablation, solar sail) apply small forces over extended
//! periods. The forces are floating-point work of the application; this
//! module holds the phases of a deflection mission and how they change.

use vstd::prelude::*;

verus! {

/// Phase of a continuous deflection mission.
#[derive(Clone, Copy, Debug, PartialEq, Eq, Structural)]
pub enum DeflectorPhase {
    /// Spacecraft is traveling to the asteroid.
    EnRoute,
    /// Spacecraft is actively deflecting the asteroid.
    Operating,
    /// Mission ended due to fuel depletion.
    FuelDepleted,
    /// Mission completed (duration-based methods).
    Complete,
    /// Mission was cancelled.
    Cancelled,
}

/// A phase in which the mission is over, for any reason.
pub open spec fn phase_is_finished(p: DeflectorPhase) -> bool {
    p == DeflectorPhase::FuelDepleted || p == DeflectorPhase::Complete || p
        == DeflectorPhase::Cancelled
}

impl Default for DeflectorPhase {
    fn default() -> (r: Self)
        ensures
            r == DeflectorPhase::EnRoute,
    {
        DeflectorPhase::EnRoute
    }
}

impl DeflectorPhase {
    /// Check if this deflector is currently applying thrust.
    pub fn is_operating(&self) -> (r: bool)
        ensures
            r == (*self == DeflectorPhase::Operating),
    {
        matches!(self, DeflectorPhase::Operating)
    }

    /// Check if this deflector's mission is complete (for any reason).
    pub fn is_finished(&self) -> (r: bool)
        ensures
            r == phase_is_finished(*self),
            r == (*self == DeflectorPhase::FuelDepleted || *self == DeflectorPhase::Complete
                || *self == DeflectorPhase::Cancelled),
    {
        matches!(
            self,
            DeflectorPhase::FuelDepleted | DeflectorPhase::Complete | DeflectorPhase::Cancelled
        )
    }
}

/// The outcome of one update of a continuous deflector.
#[derive(Clone, Copy, Debug, PartialEq, Eq, Structural)]
pub struct DeflectorUpdate {
    /// The phase after the update.
    pub phase: DeflectorPhase,
    /// The forces on the target changed: its integrator state must be reset
    /// and its predicted trajectory recomputed.
    pub forces_changed: bool,
    /// The deflector entity is removed from the scene.
    pub despawn: bool,
}

/// One update of a deflector in phase `phase`: `arrived` tells whether the
/// simulation time has reached its arrival time, `target_exists` whether its
/// target asteroid still exists, `mission_complete` whether its fuel or its
/// mission duration is used up, and `fuel_limited` whether its payload runs
/// on fuel (an ion beam) rather than for a fixed duration.
pub open spec fn spec_update_deflector(
    phase: DeflectorPhase,
    arrived: bool,
    target_exists: bool,
    mission_complete: bool,
    fuel_limited: bool,
) -> DeflectorUpdate {
    match phase {
        DeflectorPhase::EnRoute => if arrived {
            DeflectorUpdate { phase: DeflectorPhase::Operating, forces_changed: true, despawn: false }
        } else {
            DeflectorUpdate { phase, forces_changed: false, despawn: false }
        },
        DeflectorPhase::Operating => if !target_exists {
            DeflectorUpdate { phase: DeflectorPhase::Cancelled, forces_changed: false, despawn: true }
        } else if mission_complete {
            DeflectorUpdate {
                phase: if fuel_limited {
                    DeflectorPhase::FuelDepleted
                } else {
                    DeflectorPhase::Complete
                },
                forces_changed: true,
                despawn: false,
            }
        } else {
            DeflectorUpdate { phase, forces_changed: false, despawn: false }
        },
        _ => DeflectorUpdate { phase, forces_changed: false, despawn: false },
    }
}

/// Decide how a deflector's mission moves on this update (see
/// [`spec_update_deflector`]).
pub fn update_deflector(
    phase: DeflectorPhase,
    arrived: bool,
    target_exists: bool,
    mission_complete: bool,
    fuel_limited: bool,
) -> (r: DeflectorUpdate)
    ensures
        r == spec_update_deflector(phase, arrived, target_exists, mission_complete, fuel_limited),
        phase_is_finished(phase) ==> r.phase == phase && !r.forces_changed && !r.despawn,
        phase == DeflectorPhase::EnRoute && !arrived ==> r.phase == DeflectorPhase::EnRoute
            && !r.forces_changed && !r.despawn,
        phase == DeflectorPhase::EnRoute && arrived ==> r.phase == DeflectorPhase::Operating
            && r.forces_changed && !r.despawn,
        phase == DeflectorPhase::Operating && !target_exists ==> r.phase
            == DeflectorPhase::Cancelled && !r.forces_changed && r.despawn,
        phase == DeflectorPhase::Operating && target_exists && mission_complete && fuel_limited
            ==> r.phase == DeflectorPhase::FuelDepleted && r.forces_changed && !r.despawn,
        phase == DeflectorPhase::Operating && target_exists && mission_complete && !fuel_limited
            ==> r.phase == DeflectorPhase::Complete && r.forces_changed && !r.despawn,
        phase == DeflectorPhase::Operating && target_exists && !mission_complete ==> r.phase
            == DeflectorPhase::Operating && !r.forces_changed && !r.despawn,
{
    match phase {
        DeflectorPhase::EnRoute => {
            if arrived {
                // Transition to operating; the new force resets the integrator
                DeflectorUpdate {
                    phase: DeflectorPhase::Operating,
                    forces_changed: true,
                    despawn: false,
                }
            } else {
                DeflectorUpdate { phase, forces_changed: false, despawn: false }
            }
        },
        DeflectorPhase::Operating => {
            // Check if target still exists
            if !target_exists {
                DeflectorUpdate {
                    phase: DeflectorPhase::Cancelled,
                    forces_changed: false,
                    despawn: true,
                }
            } else if mission_complete {
                let next = if fuel_limited {
                    DeflectorPhase::FuelDepleted
                } else {
                    DeflectorPhase::Complete
                };
                DeflectorUpdate { phase: next, forces_changed: true, despawn: false }
            } else {
                DeflectorUpdate { phase, forces_changed: false, despawn: false }
            }
        },
        // Finished deflectors stay around for UI display
        _ => DeflectorUpdate { phase, forces_changed: false, despawn: false },
    }
}

/// Registry for tracking all continuous deflectors.
pub struct ContinuousDeflectorRegistry {
    /// Total number of continuous deflectors launched.
    pub total_launched: u32,
}

impl Default for ContinuousDeflectorRegistry {
    fn default() -> (r: Self)
        ensures
            r.total_launched == 0,
    {
        ContinuousDeflectorRegistry { total_launched: 0 }
    }
}

impl ContinuousDeflectorRegistry {
    /// Count a launch.
    pub fn register_launch(&mut self)
        requires
            old(self).total_launched < u32::MAX,
        ensures
            final(self).total_launched == old(self).total_launched + 1,
    {
        self.total_launched = self.total_launched + 1;
    }
}

/// A finished mission stays finished, and a deflector never goes back to an
/// earlier phase: it travels, then operates, then ends.
pub proof fn lemma_deflector_phase_order(
    phase: DeflectorPhase,
    arrived: bool,
    target_exists: bool,
    mission_complete: bool,
    fuel_limited: bool,
)
    ensures
        ({
            let u = spec_update_deflector(
                phase,
                arrived,
                target_exists,
                mission_complete,
                fuel_limited,
            );
            &&& phase_is_finished(phase) ==> u == DeflectorUpdate {
                phase,
                forces_changed: false,
                despawn: false,
            }
            &&& u.phase == DeflectorPhase::EnRoute ==> phase == DeflectorPhase::EnRoute
            &&& u.phase == DeflectorPhase::Operating ==> phase == DeflectorPhase::EnRoute
                || phase == DeflectorPhase::Operating
            &&& u.phase != phase ==> (u.forces_changed || u.despawn)
            &&& u.phase == DeflectorPhase::FuelDepleted && phase != u.phase ==> fuel_limited
        }),
{
}

/// What one update does in each phase, case by case: a travelling deflector
/// starts operating when it arrives (and its force changes the target's
/// trajectory); an operating one is cancelled and removed when its target is
/// gone, ends when its fuel or duration is used up (out of fuel for a
/// fuel-limited payload, complete otherwise), and otherwise keeps operating
/// with nothing changed; a finished one stays as it is.
pub proof fn lemma_deflector_update_cases(
    phase: DeflectorPhase,
    arrived: bool,
    target_exists: bool,
    mission_complete: bool,
    fuel_limited: bool,
)
    ensures
        ({
            let u = spec_update_deflector(
                phase,
                arrived,
                target_exists,
                mission_complete,
                fuel_limited,
            );
            &&& phase == DeflectorPhase::EnRoute ==> u == (if arrived {
                DeflectorUpdate {
                    phase: DeflectorPhase::Operating,
                    forces_changed: true,
                    despawn: false,
                }
            } else {
                DeflectorUpdate { phase: DeflectorPhase::EnRoute, forces_changed: false, despawn: false }
            })
            &&& phase == DeflectorPhase::Operating && !target_exists ==> u == DeflectorUpdate {
                phase: DeflectorPhase::Cancelled,
                forces_changed: false,
                despawn: true,
            }
            &&& phase == DeflectorPhase::Operating && target_exists && mission_complete
                ==> u.forces_changed && !u.despawn && (fuel_limited ==> u.phase
                == DeflectorPhase::FuelDepleted) && (!fuel_limited ==> u.phase
                == DeflectorPhase::Complete)
            &&& phase == DeflectorPhase::Operating && target_exists && !mission_complete
                ==> u == DeflectorUpdate {
                phase: DeflectorPhase::Operating,
                forces_changed: false,
                despawn: false,
            }
            &&& phase_is_finished(phase) ==> u.phase == phase && !u.forces_changed && !u.despawn
        }),
{
}

} // verus!
