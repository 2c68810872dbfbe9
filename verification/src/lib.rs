//! Deorbiting: the verified core of an orbital-mechanics simulator.
//!
//! This crate holds the integer and decision logic of the simulator: the
//! catalogue of celestial bodies, the binary ephemeris table format, the
//! bookkeeping of collisions, trajectory caches and prediction scheduling,
//! and the mission state machines of interceptors and continuous deflectors.
//! Floating-point physics lives with the application around it.

pub mod collision;
pub mod continuous;
pub mod ephemeris;
pub mod input;
pub mod interceptor;
pub mod prediction;
