//! Deploying an internal revision from a local checkout: its progress vocabulary,
//! the progress reporter, the persisted spellings of runtime roles and observed
//! states, the decisions taken about an existing runtime of the same commit and
//! about a failed execution, and (in `candidate` and `existing_runtime`) the two
//! workflows that run a candidate to promotion and reuse a retained runtime.

use vstd::prelude::*;

pub mod candidate;
pub mod existing_runtime;

use crate::create_deployment::DeploymentStatus;
use crate::domain::runtime::SocketAddress;
use crate::local_runtime::{ContainerObservation, ObservedRuntimeState};
use crate::text::{debug_string, debug_text, push_str};

verus! {

#[derive(Debug, PartialEq, Eq)]
pub struct DeployedInternalRevision {
    pub deployment_id: String,
    pub runtime_id: String,
    pub container_name: String,
    pub commit_sha: String,
    pub finished_at: String,
}

#[derive(Clone, Copy, Debug, PartialEq, Eq)]
pub enum DeploymentStep {
    LoadSpecification,
    ResolveRevision,
    ReconcileRuntime,
    CreateDeployment,
    PrepareCheckout,
    BuildImage,
    CreateContainer,
    StartContainer,
    ObserveContainer,
    RegisterCandidate,
    HealthCheckAndPromotion,
    CleanupCandidate,
}

pub open spec fn step_name(step: DeploymentStep) -> Seq<char> {
    match step {
        DeploymentStep::LoadSpecification => "load application specification"@,
        DeploymentStep::ResolveRevision => "resolve Git revision"@,
        DeploymentStep::ReconcileRuntime => "reconcile existing runtime"@,
        DeploymentStep::CreateDeployment => "create deployment"@,
        DeploymentStep::PrepareCheckout => "prepare checkout"@,
        DeploymentStep::BuildImage => "build image"@,
        DeploymentStep::CreateContainer => "create candidate container"@,
        DeploymentStep::StartContainer => "start candidate container"@,
        DeploymentStep::ObserveContainer => "observe candidate container"@,
        DeploymentStep::RegisterCandidate => "register candidate runtime"@,
        DeploymentStep::HealthCheckAndPromotion => "health check and promotion"@,
        DeploymentStep::CleanupCandidate => "clean up candidate"@,
    }
}

impl DeploymentStep {
    pub fn name(self) -> (r: &'static str)
        ensures
            r@ == step_name(self),
    {
        match self {
            DeploymentStep::LoadSpecification => "load application specification",
            DeploymentStep::ResolveRevision => "resolve Git revision",
            DeploymentStep::ReconcileRuntime => "reconcile existing runtime",
            DeploymentStep::CreateDeployment => "create deployment",
            DeploymentStep::PrepareCheckout => "prepare checkout",
            DeploymentStep::BuildImage => "build image",
            DeploymentStep::CreateContainer => "create candidate container",
            DeploymentStep::StartContainer => "start candidate container",
            DeploymentStep::ObserveContainer => "observe candidate container",
            DeploymentStep::RegisterCandidate => "register candidate runtime",
            DeploymentStep::HealthCheckAndPromotion => "health check and promotion",
            DeploymentStep::CleanupCandidate => "clean up candidate",
        }
    }
}

#[derive(Debug, PartialEq, Eq)]
pub enum DeploymentProgress {
    StepStarted { step: DeploymentStep, detail: String },
    StepCompleted { step: DeploymentStep, detail: String },
    StateChanged { deployment_id: String, status: DeploymentStatus },
    FailurePersisted { deployment_id: String, code: &'static str },
}

/// The status name progress shows for a persisted deployment status.
pub open spec fn status_name(status: DeploymentStatus) -> Seq<char> {
    match status {
        DeploymentStatus::Pending => "Pending"@,
        DeploymentStatus::PreparingSource => "PreparingSource"@,
        DeploymentStatus::Building => "Building"@,
        DeploymentStatus::Starting => "Starting"@,
        DeploymentStatus::VerifyingInternal => "VerifyingInternal"@,
        DeploymentStatus::Succeeded => "Succeeded"@,
        DeploymentStatus::Failed => "Failed"@,
    }
}

fn status_name_text(status: DeploymentStatus) -> (r: &'static str)
    ensures
        r@ == status_name(status),
{
    match status {
        DeploymentStatus::Pending => "Pending",
        DeploymentStatus::PreparingSource => "PreparingSource",
        DeploymentStatus::Building => "Building",
        DeploymentStatus::Starting => "Starting",
        DeploymentStatus::VerifyingInternal => "VerifyingInternal",
        DeploymentStatus::Succeeded => "Succeeded",
        DeploymentStatus::Failed => "Failed",
    }
}

pub open spec fn progress_text(progress: DeploymentProgress) -> Seq<char> {
    match progress {
        DeploymentProgress::StepStarted { step, detail } => step_name(step) + ": started ("@ + detail@
            + ")"@,
        DeploymentProgress::StepCompleted { step, detail } => step_name(step) + ": completed ("@
            + detail@ + ")"@,
        DeploymentProgress::StateChanged { deployment_id, status } => "deployment "@ + deployment_id@
            + ": state changed to "@ + status_name(status),
        DeploymentProgress::FailurePersisted { deployment_id, code } => "deployment "@
            + deployment_id@ + ": state changed to Failed; failure persisted ("@ + code@ + ")"@,
    }
}

impl DeploymentProgress {
    pub fn message(&self) -> (r: String)
        ensures
            r@ == progress_text(*self),
    {
        match self {
            DeploymentProgress::StepStarted { step, detail } => {
                let mut out = step.name().to_owned();
                push_str(&mut out, ": started (");
                push_str(&mut out, detail.as_str());
                push_str(&mut out, ")");
                out
            },
            DeploymentProgress::StepCompleted { step, detail } => {
                let mut out = step.name().to_owned();
                push_str(&mut out, ": completed (");
                push_str(&mut out, detail.as_str());
                push_str(&mut out, ")");
                out
            },
            DeploymentProgress::StateChanged { deployment_id, status } => {
                let mut out = "deployment ".to_owned();
                push_str(&mut out, deployment_id.as_str());
                push_str(&mut out, ": state changed to ");
                push_str(&mut out, status_name_text(*status));
                out
            },
            DeploymentProgress::FailurePersisted { deployment_id, code } => {
                let mut out = "deployment ".to_owned();
                push_str(&mut out, deployment_id.as_str());
                push_str(&mut out, ": state changed to Failed; failure persisted (");
                push_str(&mut out, code);
                push_str(&mut out, ")");
                out
            },
        }
    }
}

/// Collects progress in order when enabled and ignores it when disabled; the
/// caller hands the collected progress on to its observer.
#[derive(Debug)]
pub struct ProgressReporter {
    pub enabled: bool,
    pub events: Vec<DeploymentProgress>,
}

impl ProgressReporter {
    pub fn disabled() -> (r: Self)
        ensures
            !r.enabled,
            r.events@.len() == 0,
    {
        ProgressReporter { enabled: false, events: Vec::new() }
    }

    pub fn enabled() -> (r: Self)
        ensures
            r.enabled,
            r.events@.len() == 0,
    {
        ProgressReporter { enabled: true, events: Vec::new() }
    }

    /// Records `event` when enabled.
    pub fn emit(&mut self, event: DeploymentProgress)
        ensures
            final(self).enabled == old(self).enabled,
            old(self).enabled ==> final(self).events@ == old(self).events@.push(event),
            !old(self).enabled ==> final(self).events@ == old(self).events@,
    {
        if self.enabled {
            self.events.push(event);
        }
    }

    pub fn started(&mut self, step: DeploymentStep, detail: String)
        ensures
            final(self).enabled == old(self).enabled,
            old(self).enabled ==> final(self).events@ == old(self).events@.push(
                DeploymentProgress::StepStarted { step, detail },
            ),
            !old(self).enabled ==> final(self).events@ == old(self).events@,
    {
        self.emit(DeploymentProgress::StepStarted { step, detail });
    }

    pub fn completed(&mut self, step: DeploymentStep, detail: String)
        ensures
            final(self).enabled == old(self).enabled,
            old(self).enabled ==> final(self).events@ == old(self).events@.push(
                DeploymentProgress::StepCompleted { step, detail },
            ),
            !old(self).enabled ==> final(self).events@ == old(self).events@,
    {
        self.emit(DeploymentProgress::StepCompleted { step, detail });
    }

    pub fn state_changed(&mut self, deployment_id: &str, status: DeploymentStatus)
        ensures
            final(self).enabled == old(self).enabled,
            old(self).enabled ==> final(self).events@.len() == old(self).events@.len() + 1 && (forall|
                i: int,
            | 0 <= i < old(self).events@.len() ==> final(self).events@[i] == old(self).events@[i])
                && (final(self).events@.last() matches DeploymentProgress::StateChanged {
                deployment_id: id,
                status: s,
            } && id@ == deployment_id@ && s == status),
            !old(self).enabled ==> final(self).events@ == old(self).events@,
    {
        self.emit(
            DeploymentProgress::StateChanged { deployment_id: deployment_id.to_owned(), status },
        );
    }

    pub fn failure_persisted(&mut self, deployment_id: &str, code: &'static str)
        ensures
            final(self).enabled == old(self).enabled,
            old(self).enabled ==> final(self).events@.len() == old(self).events@.len() + 1 && (forall|
                i: int,
            | 0 <= i < old(self).events@.len() ==> final(self).events@[i] == old(self).events@[i])
                && (final(self).events@.last() matches DeploymentProgress::FailurePersisted {
                deployment_id: id,
                code: c,
            } && id@ == deployment_id@ && c == code),
            !old(self).enabled ==> final(self).events@ == old(self).events@,
    {
        self.emit(
            DeploymentProgress::FailurePersisted { deployment_id: deployment_id.to_owned(), code },
        );
    }
}

/// Which retained runtime of the requested commit was found.
#[derive(Clone, Copy, Debug, PartialEq, Eq)]
pub enum ExistingRuntimeRole {
    Current,
    Previous,
}

impl ExistingRuntimeRole {
    pub fn database_value(self) -> (r: &'static str)
        ensures
            r@ == match self {
                ExistingRuntimeRole::Current => "current"@,
                ExistingRuntimeRole::Previous => "previous"@,
            },
    {
        match self {
            ExistingRuntimeRole::Current => "current",
            ExistingRuntimeRole::Previous => "previous",
        }
    }
}

pub open spec fn observed_state_value(state: ObservedRuntimeState) -> Seq<char> {
    match state {
        ObservedRuntimeState::Missing => "missing"@,
        ObservedRuntimeState::Created => "created"@,
        ObservedRuntimeState::Starting => "starting"@,
        ObservedRuntimeState::Running => "running"@,
        ObservedRuntimeState::Stopping => "stopping"@,
        ObservedRuntimeState::Stopped => "stopped"@,
        ObservedRuntimeState::Failed => "failed"@,
        ObservedRuntimeState::Unknown { .. } => "unknown"@,
    }
}

/// The persisted spelling of an observed state; unknown statuses persist as `unknown`.
pub fn observed_state_database_value(state: &ObservedRuntimeState) -> (r: &'static str)
    ensures
        r@ == observed_state_value(*state),
{
    match state {
        ObservedRuntimeState::Missing => "missing",
        ObservedRuntimeState::Created => "created",
        ObservedRuntimeState::Starting => "starting",
        ObservedRuntimeState::Running => "running",
        ObservedRuntimeState::Stopping => "stopping",
        ObservedRuntimeState::Stopped => "stopped",
        ObservedRuntimeState::Failed => "failed",
        ObservedRuntimeState::Unknown { .. } => "unknown",
    }
}

/// What to do with an existing runtime of the requested commit after observing it.
#[derive(Clone, Copy, Debug, PartialEq, Eq)]
pub enum ExistingRuntimeStep {
    /// Its container is gone: a new deployment is required.
    DeployAnew,
    /// It runs on this endpoint: check its health.
    CheckHealth(SocketAddress),
    /// It was created or stopped: start it and observe it again.
    Restart,
    /// Its state cannot be reconciled.
    Unavailable,
}

pub open spec fn first_observation_step(observation: ContainerObservation) -> ExistingRuntimeStep {
    match observation.state {
        ObservedRuntimeState::Missing => ExistingRuntimeStep::DeployAnew,
        ObservedRuntimeState::Running => match observation.endpoint {
            Some(endpoint) => ExistingRuntimeStep::CheckHealth(endpoint),
            None => ExistingRuntimeStep::Unavailable,
        },
        ObservedRuntimeState::Created | ObservedRuntimeState::Stopped => ExistingRuntimeStep::Restart,
        _ => ExistingRuntimeStep::Unavailable,
    }
}

/// Decides the next step for an existing runtime from its first observation.
pub fn next_existing_runtime_step(observation: &ContainerObservation) -> (r: ExistingRuntimeStep)
    ensures
        r == first_observation_step(*observation),
{
    match observation.state {
        ObservedRuntimeState::Missing => ExistingRuntimeStep::DeployAnew,
        ObservedRuntimeState::Running => match observation.endpoint {
            Some(endpoint) => ExistingRuntimeStep::CheckHealth(endpoint),
            None => ExistingRuntimeStep::Unavailable,
        },
        ObservedRuntimeState::Created | ObservedRuntimeState::Stopped => ExistingRuntimeStep::Restart,
        _ => ExistingRuntimeStep::Unavailable,
    }
}

/// After a restart only a running runtime with an endpoint can be health-checked.
pub fn restarted_endpoint(observation: &ContainerObservation) -> (r: Option<SocketAddress>)
    ensures
        r == (match (observation.state, observation.endpoint) {
            (ObservedRuntimeState::Running, Some(endpoint)) => Some(endpoint),
            _ => None,
        }),
{
    match (&observation.state, observation.endpoint) {
        (ObservedRuntimeState::Running, Some(endpoint)) => Some(endpoint),
        _ => None,
    }
}

/// How an observation of an existing runtime is persisted.
#[derive(Clone, Copy, Debug, PartialEq, Eq)]
pub enum ObservationUpdate {
    /// The container is gone: mark the runtime missing and removed.
    MarkRemoved,
    /// Record the state and the published host port.
    StateAndPort { port: u16 },
    /// Record the state only.
    StateOnly,
}

pub fn observation_update(observation: &ContainerObservation) -> (r: ObservationUpdate)
    ensures
        r == (if observation.state is Missing {
            ObservationUpdate::MarkRemoved
        } else {
            match observation.endpoint {
                Some(endpoint) => ObservationUpdate::StateAndPort { port: endpoint.port },
                None => ObservationUpdate::StateOnly,
            }
        }),
{
    if let ObservedRuntimeState::Missing = observation.state {
        return ObservationUpdate::MarkRemoved;
    }
    match observation.endpoint {
        Some(endpoint) => ObservationUpdate::StateAndPort { port: endpoint.port },
        None => ObservationUpdate::StateOnly,
    }
}

/// Why an observed candidate cannot be registered.
#[derive(Debug, PartialEq, Eq)]
pub enum RuntimeObservationFailure {
    NotRunning { actual: ObservedRuntimeState },
    MissingEndpoint,
}

/// The `Debug` spelling of an observed state.
pub open spec fn observed_state_debug(state: ObservedRuntimeState) -> Seq<char> {
    match state {
        ObservedRuntimeState::Missing => "Missing"@,
        ObservedRuntimeState::Created => "Created"@,
        ObservedRuntimeState::Starting => "Starting"@,
        ObservedRuntimeState::Running => "Running"@,
        ObservedRuntimeState::Stopping => "Stopping"@,
        ObservedRuntimeState::Stopped => "Stopped"@,
        ObservedRuntimeState::Failed => "Failed"@,
        ObservedRuntimeState::Unknown { status } => "Unknown { status: "@ + debug_string(status@)
            + " }"@,
    }
}

pub(crate) fn observed_state_debug_text(state: &ObservedRuntimeState) -> (r: String)
    ensures
        r@ == observed_state_debug(*state),
{
    match state {
        ObservedRuntimeState::Missing => "Missing".to_owned(),
        ObservedRuntimeState::Created => "Created".to_owned(),
        ObservedRuntimeState::Starting => "Starting".to_owned(),
        ObservedRuntimeState::Running => "Running".to_owned(),
        ObservedRuntimeState::Stopping => "Stopping".to_owned(),
        ObservedRuntimeState::Stopped => "Stopped".to_owned(),
        ObservedRuntimeState::Failed => "Failed".to_owned(),
        ObservedRuntimeState::Unknown { status } => {
            let mut out = "Unknown { status: ".to_owned();
            let quoted = debug_text(status.as_str());
            push_str(&mut out, quoted.as_str());
            push_str(&mut out, " }");
            out
        },
    }
}

impl RuntimeObservationFailure {
    pub fn message(&self) -> (r: String)
        ensures
            r@ == match *self {
                RuntimeObservationFailure::NotRunning { actual } =>
                    "expected runtime to be Running, got "@ + observed_state_debug(actual),
                RuntimeObservationFailure::MissingEndpoint =>
                    "running runtime has no loopback endpoint"@,
            },
    {
        match self {
            RuntimeObservationFailure::NotRunning { actual } => {
                let mut out = "expected runtime to be Running, got ".to_owned();
                let state = observed_state_debug_text(actual);
                push_str(&mut out, state.as_str());
                out
            },
            RuntimeObservationFailure::MissingEndpoint => {
                "running runtime has no loopback endpoint".to_owned()
            },
        }
    }
}

/// The endpoint a started candidate is registered with: the candidate must be
/// running and must publish an endpoint.
pub fn candidate_endpoint(observation: ContainerObservation) -> (r: Result<
    SocketAddress,
    RuntimeObservationFailure,
>)
    ensures
        !(observation.state is Running) ==> r == Err::<SocketAddress, RuntimeObservationFailure>(
            RuntimeObservationFailure::NotRunning { actual: observation.state },
        ),
        observation.state is Running ==> r == match observation.endpoint {
            Some(endpoint) => Ok::<SocketAddress, RuntimeObservationFailure>(endpoint),
            None => Err(RuntimeObservationFailure::MissingEndpoint),
        },
{
    let ContainerObservation { state, endpoint } = observation;
    if let ObservedRuntimeState::Running = state {
        match endpoint {
            Some(endpoint) => Ok(endpoint),
            None => Err(RuntimeObservationFailure::MissingEndpoint),
        }
    } else {
        Err(RuntimeObservationFailure::NotRunning { actual: state })
    }
}

/// A failed execution stage: its failure code and message, the candidate container
/// and runtime it left behind, and whether the failure is already recorded.
#[derive(Debug, PartialEq, Eq)]
pub struct FailedExecution {
    pub code: &'static str,
    pub message: String,
    pub container_id: Option<String>,
    pub runtime_id: Option<String>,
    pub failure_persisted: bool,
}

fn owned(value: Option<&str>) -> (r: Option<String>)
    ensures
        match (value, r) {
            (Some(v), Some(x)) => x@ == v@,
            (None, None) => true,
            _ => false,
        },
{
    match value {
        Some(v) => Some(v.to_owned()),
        None => None,
    }
}

/// Failures that did not update the deployment themselves: the common finalizer
/// records them before any candidate cleanup.
pub fn failure_needing_persistence(
    code: &'static str,
    message: String,
    container_id: Option<&str>,
    runtime_id: Option<&str>,
) -> (r: FailedExecution)
    ensures
        r.code == code,
        r.message == message,
        !r.failure_persisted,
        match (container_id, r.container_id) {
            (Some(v), Some(x)) => x@ == v@,
            (None, None) => true,
            _ => false,
        },
        match (runtime_id, r.runtime_id) {
            (Some(v), Some(x)) => x@ == v@,
            (None, None) => true,
            _ => false,
        },
{
    FailedExecution {
        code,
        message,
        container_id: owned(container_id),
        runtime_id: owned(runtime_id),
        failure_persisted: false,
    }
}

/// An unhealthy candidate: promotion already recorded the failure, so the
/// finalizer only removes the rejected candidate.
pub fn failure_already_persisted(
    code: &'static str,
    message: String,
    container_id: &str,
    runtime_id: &str,
) -> (r: FailedExecution)
    ensures
        r.code == code,
        r.message == message,
        r.failure_persisted,
        r.container_id matches Some(c) && c@ == container_id@,
        r.runtime_id matches Some(id) && id@ == runtime_id@,
{
    FailedExecution {
        code,
        message,
        container_id: Some(container_id.to_owned()),
        runtime_id: Some(runtime_id.to_owned()),
        failure_persisted: true,
    }
}

/// How a failed deployment ends once the finalizer tried to record the failure and
/// to clean up the candidate.
#[derive(Debug, PartialEq, Eq)]
pub enum FailedDeploymentError {
    /// The candidate could not be removed.
    Cleanup { deployment_id: String, failure: String, message: String },
    /// The failure could not be recorded on the deployment.
    RecordFailure { deployment_id: String, failure: String, message: String },
    /// The deployment failed and its failure is recorded.
    DeploymentFailed { deployment_id: String, code: &'static str, failure: String },
}

/// The error a failed deployment ends with: a cleanup error comes first, then an
/// error recording the failure, and otherwise the failure itself.
pub fn failed_deployment_error(
    deployment_id: &str,
    failed: FailedExecution,
    record_error: Option<String>,
    cleanup_error: Option<String>,
) -> (r: FailedDeploymentError)
    ensures
        match (cleanup_error, record_error) {
            (Some(message), _) => r matches FailedDeploymentError::Cleanup { deployment_id: d, failure, message: m }
                && d@ == deployment_id@ && failure == failed.message && m == message,
            (None, Some(message)) => r matches FailedDeploymentError::RecordFailure {
                deployment_id: d,
                failure,
                message: m,
            } && d@ == deployment_id@ && failure == failed.message && m == message,
            (None, None) => r matches FailedDeploymentError::DeploymentFailed { deployment_id: d, code, failure }
                && d@ == deployment_id@ && code == failed.code && failure == failed.message,
        },
{
    if let Some(message) = cleanup_error {
        return FailedDeploymentError::Cleanup {
            deployment_id: deployment_id.to_owned(),
            failure: failed.message,
            message,
        };
    }
    if let Some(message) = record_error {
        return FailedDeploymentError::RecordFailure {
            deployment_id: deployment_id.to_owned(),
            failure: failed.message,
            message,
        };
    }
    FailedDeploymentError::DeploymentFailed {
        deployment_id: deployment_id.to_owned(),
        code: failed.code,
        failure: failed.message,
    }
}

impl FailedDeploymentError {
    pub fn message(&self) -> (r: String)
        ensures
            r@ == match *self {
                FailedDeploymentError::Cleanup { deployment_id, failure, message } => "deployment `"@
                    + deployment_id@ + "` encountered `"@ + failure@
                    + "` and its candidate could not be cleaned up: "@ + message@,
                FailedDeploymentError::RecordFailure { deployment_id, failure, message } =>
                    "deployment `"@ + deployment_id@ + "` encountered `"@ + failure@
                    + "` and its failure could not be recorded: "@ + message@,
                FailedDeploymentError::DeploymentFailed { deployment_id, code, failure } =>
                    "deployment `"@ + deployment_id@ + "` failed with `"@ + code@ + "`: "@ + failure@,
            },
    {
        let mut out = "deployment `".to_owned();
        match self {
            FailedDeploymentError::Cleanup { deployment_id, failure, message } => {
                push_str(&mut out, deployment_id.as_str());
                push_str(&mut out, "` encountered `");
                push_str(&mut out, failure.as_str());
                push_str(&mut out, "` and its candidate could not be cleaned up: ");
                push_str(&mut out, message.as_str());
            },
            FailedDeploymentError::RecordFailure { deployment_id, failure, message } => {
                push_str(&mut out, deployment_id.as_str());
                push_str(&mut out, "` encountered `");
                push_str(&mut out, failure.as_str());
                push_str(&mut out, "` and its failure could not be recorded: ");
                push_str(&mut out, message.as_str());
            },
            FailedDeploymentError::DeploymentFailed { deployment_id, code, failure } => {
                push_str(&mut out, deployment_id.as_str());
                push_str(&mut out, "` failed with `");
                push_str(&mut out, code);
                push_str(&mut out, "`: ");
                push_str(&mut out, failure.as_str());
            },
        }
        out
    }
}

/// A candidate may be removed during cleanup unless the database already knows its
/// runtime under another role than `candidate`.
pub fn candidate_may_be_removed(role: Option<&str>) -> (r: bool)
    ensures
        r == match role {
            Some(role) => role@ == "candidate"@,
            None => true,
        },
{
    match role {
        Some(role) => crate::text::str_eq(role, "candidate"),
        None => true,
    }
}

} // verus!
