//! A composable abstraction for request/response processing with explicit
//! backpressure: readiness-gated units of work, pending computations behind
//! an erased handle, work factories that mint new units per session, an
//! adapter that lets factories be driven through the unit-of-work interface,
//! and a functional wrapper for stateless handlers.

pub mod computation;
pub mod factory;
pub mod func;
pub mod gated;
pub mod hello;
pub mod readiness;
pub mod unit;
