//! Pure domain layer: value objects, entities, state transitions, and
//! reconciliation policy.

pub mod identity;
pub mod git;
pub mod release;
pub mod exposure;
pub mod application;
pub mod delivery;
pub mod runtime;
pub mod system;
pub mod deployment;
pub mod reconciliation;
pub mod manifest;
