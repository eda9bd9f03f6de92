//! Pure comparison of desired and persisted facts against observed external state
//! that yields the next reconciliation action without performing effects.
//!
//! - `observation`: what each authority exposes right now, plus what SQLite records
//!   as desired intent, persisted bookkeeping, and boundary-rendered expectations;
//! - `decision`: the classification of those facts into the next action, refusing
//!   unsafe drift as manual intervention.

pub mod decision;
pub mod observation;

pub use decision::{
    decide, PublicExposureFailure, PublicExposureFailureKind, ReconciliationDecision,
    ReconciliationDecisionError, RuntimeIdentityRepair, RuntimeRematerialization,
};
pub use observation::{
    ActiveRuntime, CaddyFragmentObservation, DesiredState, NamedContainerObservation,
    PersistedState, QuadletSourceObservation, ReconciliationExpectations, ReconciliationInput,
    ReconciliationObservation, SystemdUnitObservation,
};
