//! The typed outcomes that executed commands report, and the semantic events a
//! deployment emits while it runs.

use vstd::prelude::*;

use crate::domain::application::{ApplicationName, ApplicationSummary, DesiredRuntimeState};
use crate::domain::deployment::{Deployment, DeploymentFailureCode, DeploymentStatus, SourceRevision};
use crate::domain::exposure::{DomainName, Visibility};
use crate::domain::identity::{DeploymentId, RuntimeInstanceId};
use crate::domain::release::OciArtifact;
use crate::domain::runtime::{ContainerId, ObservedRuntimeState, SocketAddress};
use crate::domain::system::System;

verus! {

/// Persisted runtime intent beside what the container authority reports now.
#[derive(Debug)]
pub struct RuntimeObservation {
    pub desired_runtime_state: DesiredRuntimeState,
    pub observed_runtime_state: ObservedRuntimeState,
    pub runtime_id: RuntimeInstanceId,
    pub container_id: ContainerId,
    pub observed_endpoint: Option<SocketAddress>,
}

/// One catalog row: the application and whether it has an active deployment.
#[derive(Debug)]
pub struct ApplicationCatalogEntry {
    pub summary: ApplicationSummary,
    pub deployed: bool,
}

/// A promoted deployment.
#[derive(Debug)]
pub struct DeploymentResult {
    pub artifact: OciArtifact,
    pub source_revision: Option<SourceRevision>,
    pub deployment_id: DeploymentId,
    pub runtime_id: RuntimeInstanceId,
    pub container_name: String,
}

/// The visibility now requested for an application, with its domain when public.
#[derive(Debug)]
pub struct ExposureChange {
    pub visibility: Visibility,
    pub domain: Option<DomainName>,
}

/// What one reconciliation pass did.
#[derive(Debug)]
pub enum ReconciliationResult {
    NoOp,
    Deferred { blocking_deployment: Option<Deployment> },
    Repaired { runtime_id: RuntimeInstanceId, container_id: ContainerId },
    ManualIntervention { reason: String },
    ExposureRepaired,
    Failed { reason: String },
    Diverged { reason: String },
}

/// A system with the applications assigned to it.
#[derive(Debug)]
pub struct SystemDetails {
    pub system: System,
    pub applications: Vec<ApplicationSummary>,
}

/// One observable step of a deployment.
#[derive(Clone, Copy, Debug, PartialEq, Eq, Structural)]
pub enum DeploymentStep {
    ResolveBranch,
    ResolveImageDigest,
    PullImage,
    LoadSpecification,
    CreateDeployment,
    ReservePort,
    CreateUnit,
    ReloadSystemd,
    StartContainer,
    ResolveContainer,
    ObserveContainer,
    RegisterCandidate,
    InternalHealthCheck,
    ApplyPublicRoute,
    ExternalHealthCheck,
    PromoteCandidate,
    CleanupCandidate,
    RetirePreviousRuntime,
}

/// Why retiring the previous runtime after a promotion was not fully proven.
#[derive(Clone, Debug, PartialEq, Eq)]
pub enum RetirementWarning {
    UnitRetirementFailed { diagnostic: String },
    ContainerRemovalUnproven { diagnostic: String },
    PersistenceFailed,
}

/// A semantic event a deployment reports to its observer.
#[derive(Clone, Debug, PartialEq, Eq)]
pub enum DeploymentEvent {
    DeploymentRequested { application_name: ApplicationName },
    StepStarted { step: DeploymentStep },
    StepCompleted { step: DeploymentStep },
    StateChanged { deployment_id: DeploymentId, status: DeploymentStatus },
    FailurePersisted { deployment_id: DeploymentId, code: DeploymentFailureCode },
    RetirementWarning { runtime_id: RuntimeInstanceId, warning: RetirementWarning },
}

} // verus!
