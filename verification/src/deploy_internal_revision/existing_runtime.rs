//! Reconciling a retained runtime of the requested commit instead of deploying it
//! again: observe its container, record the observation, restart it when it was
//! created or stopped, health-check it, and reactivate it when it is the previous
//! runtime. Each step is work for the caller; this module decides, from what the
//! caller reports, the next step, the progress to show, and the result.

use vstd::prelude::*;

use super::candidate::{completed, started};
use super::{
    observation_update, observed_state_database_value, observed_state_debug,
    observed_state_value, DeployedInternalRevision, DeploymentProgress, DeploymentStep,
    ExistingRuntimeRole, ObservationUpdate,
};
use crate::domain::runtime::SocketAddress;
use crate::local_runtime::{container_name, container_name_text, ContainerObservation, ObservedRuntimeState};
use crate::text::push_str;

verus! {

/// The retained runtime found for the requested commit.
#[derive(Debug)]
pub struct ExistingRuntime {
    pub runtime_id: String,
    pub deployment_id: String,
    pub external_runtime_id: String,
    pub container_port: u16,
    pub finished_at: String,
    pub role: ExistingRuntimeRole,
}

/// Where the reconciliation stands.
#[derive(Debug)]
pub enum ExistingRuntimeStage {
    Ready,
    /// The container is being observed.
    Observing,
    /// The first observation is being recorded.
    Persisting { observation: ContainerObservation },
    /// The created or stopped container is being started.
    Restarting,
    /// The restarted container is being observed.
    Reobserving,
    /// The observation after the restart is being recorded.
    PersistingRestarted { observation: ContainerObservation },
    /// The running runtime is being health-checked.
    CheckingHealth,
    /// The previous runtime is being made Current again.
    Reactivating,
    /// The reconciliation finished; nothing more is asked.
    Done,
}

/// A reconciliation: the application, the requested commit, its health check, the
/// retained runtime, and the stage reached.
#[derive(Debug)]
pub struct ExistingRuntimeState {
    pub application_id: String,
    pub application_name: String,
    pub commit_sha: String,
    pub health_path: String,
    pub expected_status: u16,
    pub runtime: ExistingRuntime,
    pub stage: ExistingRuntimeStage,
}

/// What the caller reports back about the step it was asked to run.
#[derive(Debug)]
pub enum ExistingRuntimeEvent {
    Begin,
    Observed { observation: ContainerObservation },
    ObservationFailed { message: String },
    /// The observation was recorded on `updated` rows.
    Persisted { updated: u64 },
    PersistFailed { message: String },
    StartSucceeded,
    StartFailed { message: String },
    Healthy,
    /// The health check ran and the runtime failed it; `result` describes how.
    Unhealthy { result: String },
    HealthCheckFailed { message: String },
    Reactivated,
    /// The runtime was no longer the previous one when its role was swapped.
    ReactivationChanged,
    ReactivationFailed { message: String },
}

/// Why a retained runtime cannot be reused.
#[derive(Debug, PartialEq, Eq)]
pub enum ExistingRuntimeError {
    ObserveExistingRuntime { runtime_id: String, message: String },
    StartExistingRuntime { runtime_id: String, message: String },
    PersistExistingRuntime { runtime_id: String, message: String },
    ExistingRuntimeChanged { runtime_id: String },
    ExistingRuntimeUnavailable { runtime_id: String, state: ObservedRuntimeState },
    CheckExistingRuntime { runtime_id: String, message: String },
    ExistingRuntimeUnhealthy { runtime_id: String, result: String },
    ReactivatePreviousRuntime { runtime_id: String, message: String },
}

/// The step the caller runs next.
#[derive(Debug)]
pub enum ExistingRuntimeCommand {
    Observe { container_id: String, container_port: u16 },
    /// Record an observation on the runtime row, guarded by its role.
    Persist {
        runtime_id: String,
        role: ExistingRuntimeRole,
        state: &'static str,
        update: ObservationUpdate,
    },
    Start { container_id: String },
    CheckHealth { endpoint: SocketAddress, health_path: String, expected_status: u16 },
    /// Make the previous runtime Current and the Current one previous, atomically.
    Reactivate { application_id: String, runtime_id: String },
    /// The reconciliation's result: the reused runtime, `None` when a new deployment
    /// is required, or why the runtime cannot be reused.
    Finish { result: Result<Option<DeployedInternalRevision>, ExistingRuntimeError> },
    Ignore,
}

/// The progress to show, in order, then the step to run.
#[derive(Debug)]
pub struct ExistingRuntimeAction {
    pub progress: Vec<DeploymentProgress>,
    pub command: ExistingRuntimeCommand,
}

pub open spec fn role_debug(role: ExistingRuntimeRole) -> Seq<char> {
    match role {
        ExistingRuntimeRole::Current => "Current"@,
        ExistingRuntimeRole::Previous => "Previous"@,
    }
}

pub open spec fn runtime_id_of(error: ExistingRuntimeError) -> Seq<char> {
    match error {
        ExistingRuntimeError::ObserveExistingRuntime { runtime_id, .. } => runtime_id@,
        ExistingRuntimeError::StartExistingRuntime { runtime_id, .. } => runtime_id@,
        ExistingRuntimeError::PersistExistingRuntime { runtime_id, .. } => runtime_id@,
        ExistingRuntimeError::ExistingRuntimeChanged { runtime_id } => runtime_id@,
        ExistingRuntimeError::ExistingRuntimeUnavailable { runtime_id, .. } => runtime_id@,
        ExistingRuntimeError::CheckExistingRuntime { runtime_id, .. } => runtime_id@,
        ExistingRuntimeError::ExistingRuntimeUnhealthy { runtime_id, .. } => runtime_id@,
        ExistingRuntimeError::ReactivatePreviousRuntime { runtime_id, .. } => runtime_id@,
    }
}

/// The action finishes with no progress and an error for the state's runtime that
/// `shape` accepts.
pub open spec fn fails_with(
    state: ExistingRuntimeState,
    action: ExistingRuntimeAction,
    shape: spec_fn(ExistingRuntimeError) -> bool,
) -> bool {
    &&& action.progress@.len() == 0
    &&& action.command matches ExistingRuntimeCommand::Finish { result: Err(error) }
    &&& runtime_id_of(error) == state.runtime.runtime_id@
    &&& shape(error)
}

/// The runtime, reused for the requested commit under its stable container name.
pub open spec fn reused(state: ExistingRuntimeState, deployed: DeployedInternalRevision) -> bool {
    &&& deployed.deployment_id@ == state.runtime.deployment_id@
    &&& deployed.runtime_id@ == state.runtime.runtime_id@
    &&& deployed.container_name@ == container_name_text(state.application_name@, state.commit_sha@)
    &&& deployed.commit_sha@ == state.commit_sha@
    &&& deployed.finished_at@ == state.runtime.finished_at@
}

/// The action finishes with the reused runtime after showing `detail` as the
/// completed reconciliation.
pub open spec fn reuses(state: ExistingRuntimeState, action: ExistingRuntimeAction, detail: Seq<char>) -> bool {
    &&& action.progress@.len() == 1
    &&& completed(action.progress@[0], DeploymentStep::ReconcileRuntime, detail)
    &&& action.command matches ExistingRuntimeCommand::Finish { result: Ok(Some(deployed)) }
    &&& reused(state, deployed)
}

pub open spec fn observes(state: ExistingRuntimeState, action: ExistingRuntimeAction) -> bool {
    &&& action.command matches ExistingRuntimeCommand::Observe { container_id, container_port }
    &&& container_id@ == state.runtime.external_runtime_id@
    &&& container_port == state.runtime.container_port
}

pub open spec fn persists(
    state: ExistingRuntimeState,
    action: ExistingRuntimeAction,
    observation: ContainerObservation,
) -> bool {
    &&& action.progress@.len() == 0
    &&& action.command matches ExistingRuntimeCommand::Persist { runtime_id, role, state: value, update }
    &&& runtime_id@ == state.runtime.runtime_id@
    &&& role == state.runtime.role
    &&& value@ == observed_state_value(observation.state)
    &&& update == (if observation.state is Missing {
        ObservationUpdate::MarkRemoved
    } else {
        match observation.endpoint {
            Some(endpoint) => ObservationUpdate::StateAndPort { port: endpoint.port },
            None => ObservationUpdate::StateOnly,
        }
    })
}

pub open spec fn checks_health(
    state: ExistingRuntimeState,
    action: ExistingRuntimeAction,
    endpoint: SocketAddress,
) -> bool {
    &&& action.progress@.len() == 0
    &&& action.command matches ExistingRuntimeCommand::CheckHealth { endpoint: e, health_path, expected_status }
    &&& e == endpoint
    &&& health_path@ == state.health_path@
    &&& expected_status == state.expected_status
}

pub open spec fn unavailable(state: ObservedRuntimeState) -> spec_fn(ExistingRuntimeError) -> bool {
    |e: ExistingRuntimeError| e matches ExistingRuntimeError::ExistingRuntimeUnavailable { state: s, .. } && s == state
}

/// The step after an observation was recorded on `updated` rows: exactly one row must
/// change. After the first observation a missing container requires a new deployment,
/// a running one with an endpoint is health-checked, a created or stopped one is
/// started; after the restart only a running container with an endpoint is
/// health-checked. Anything else cannot be reconciled.
pub open spec fn after_persist(
    state: ExistingRuntimeState,
    observation: ContainerObservation,
    restarted: bool,
    updated: u64,
    next: ExistingRuntimeState,
    action: ExistingRuntimeAction,
) -> bool {
    if updated != 1 {
        &&& next.stage is Done
        &&& fails_with(state, action, |e: ExistingRuntimeError| e is ExistingRuntimeChanged)
    } else if observation.state is Running && observation.endpoint is Some {
        &&& next.stage is CheckingHealth
        &&& checks_health(state, action, observation.endpoint->0)
    } else if restarted {
        &&& next.stage is Done
        &&& fails_with(state, action, unavailable(observation.state))
    } else {
        match observation.state {
            ObservedRuntimeState::Missing => {
                &&& next.stage is Done
                &&& action.progress@.len() == 1
                &&& completed(
                    action.progress@[0],
                    DeploymentStep::ReconcileRuntime,
                    "runtime "@ + state.runtime.runtime_id@ + " is missing; a new deployment is required"@,
                )
                &&& action.command matches ExistingRuntimeCommand::Finish { result: Ok(None) }
            },
            ObservedRuntimeState::Created | ObservedRuntimeState::Stopped => {
                &&& next.stage is Restarting
                &&& action.progress@.len() == 0
                &&& action.command matches ExistingRuntimeCommand::Start { container_id }
                &&& container_id@ == state.runtime.external_runtime_id@
            },
            _ => {
                &&& next.stage is Done
                &&& fails_with(state, action, unavailable(observation.state))
            },
        }
    }
}

/// One step of a reconciliation. The context never changes. An event that does not
/// answer the current stage changes nothing and asks for nothing.
pub open spec fn existing_runtime_transition(
    state: ExistingRuntimeState,
    event: ExistingRuntimeEvent,
    next: ExistingRuntimeState,
    action: ExistingRuntimeAction,
) -> bool {
    let id = state.runtime.runtime_id@;
    &&& next.application_id == state.application_id
    &&& next.application_name == state.application_name
    &&& next.commit_sha == state.commit_sha
    &&& next.health_path == state.health_path
    &&& next.expected_status == state.expected_status
    &&& next.runtime == state.runtime
    &&& match (state.stage, event) {
        (ExistingRuntimeStage::Ready, ExistingRuntimeEvent::Begin) => {
            &&& next.stage is Observing
            &&& action.progress@.len() == 1
            &&& started(
                action.progress@[0],
                DeploymentStep::ReconcileRuntime,
                "runtime "@ + id + ", role "@ + role_debug(state.runtime.role) + ", commit "@
                    + state.commit_sha@,
            )
            &&& observes(state, action)
        },
        (ExistingRuntimeStage::Observing, ExistingRuntimeEvent::ObservationFailed { message })
        | (ExistingRuntimeStage::Reobserving, ExistingRuntimeEvent::ObservationFailed { message }) => {
            &&& next.stage is Done
            &&& fails_with(
                state,
                action,
                |e: ExistingRuntimeError|
                    e matches ExistingRuntimeError::ObserveExistingRuntime { message: m, .. } && m@
                        == message@,
            )
        },
        (ExistingRuntimeStage::Observing, ExistingRuntimeEvent::Observed { observation }) => {
            &&& next.stage == ExistingRuntimeStage::Persisting { observation }
            &&& persists(state, action, observation)
        },
        (ExistingRuntimeStage::Reobserving, ExistingRuntimeEvent::Observed { observation }) => {
            &&& next.stage == ExistingRuntimeStage::PersistingRestarted { observation }
            &&& persists(state, action, observation)
        },
        (ExistingRuntimeStage::Persisting { .. }, ExistingRuntimeEvent::PersistFailed { message })
        | (
            ExistingRuntimeStage::PersistingRestarted { .. },
            ExistingRuntimeEvent::PersistFailed { message },
        ) => {
            &&& next.stage is Done
            &&& fails_with(
                state,
                action,
                |e: ExistingRuntimeError|
                    e matches ExistingRuntimeError::PersistExistingRuntime { message: m, .. } && m@
                        == message@,
            )
        },
        (ExistingRuntimeStage::Persisting { observation }, ExistingRuntimeEvent::Persisted { updated }) =>
            after_persist(state, observation, false, updated, next, action),
        (
            ExistingRuntimeStage::PersistingRestarted { observation },
            ExistingRuntimeEvent::Persisted { updated },
        ) => after_persist(state, observation, true, updated, next, action),
        (ExistingRuntimeStage::Restarting, ExistingRuntimeEvent::StartFailed { message }) => {
            &&& next.stage is Done
            &&& fails_with(
                state,
                action,
                |e: ExistingRuntimeError|
                    e matches ExistingRuntimeError::StartExistingRuntime { message: m, .. } && m@
                        == message@,
            )
        },
        (ExistingRuntimeStage::Restarting, ExistingRuntimeEvent::StartSucceeded) => {
            &&& next.stage is Reobserving
            &&& action.progress@.len() == 0
            &&& observes(state, action)
        },
        (ExistingRuntimeStage::CheckingHealth, ExistingRuntimeEvent::HealthCheckFailed { message }) => {
            &&& next.stage is Done
            &&& fails_with(
                state,
                action,
                |e: ExistingRuntimeError|
                    e matches ExistingRuntimeError::CheckExistingRuntime { message: m, .. } && m@
                        == message@,
            )
        },
        (ExistingRuntimeStage::CheckingHealth, ExistingRuntimeEvent::Unhealthy { result }) => {
            &&& next.stage is Done
            &&& fails_with(
                state,
                action,
                |e: ExistingRuntimeError|
                    e matches ExistingRuntimeError::ExistingRuntimeUnhealthy { result: r, .. } && r@
                        == result@,
            )
        },
        (ExistingRuntimeStage::CheckingHealth, ExistingRuntimeEvent::Healthy) => match state.runtime.role {
            ExistingRuntimeRole::Previous => {
                &&& next.stage is Reactivating
                &&& action.progress@.len() == 0
                &&& action.command matches ExistingRuntimeCommand::Reactivate { application_id, runtime_id }
                &&& application_id@ == state.application_id@
                &&& runtime_id@ == id
            },
            ExistingRuntimeRole::Current => {
                &&& next.stage is Done
                &&& reuses(state, action, "runtime "@ + id + " is running and healthy"@)
            },
        },
        (ExistingRuntimeStage::Reactivating, ExistingRuntimeEvent::ReactivationFailed { message }) => {
            &&& next.stage is Done
            &&& fails_with(
                state,
                action,
                |e: ExistingRuntimeError|
                    e matches ExistingRuntimeError::ReactivatePreviousRuntime { message: m, .. } && m@
                        == message@,
            )
        },
        (ExistingRuntimeStage::Reactivating, ExistingRuntimeEvent::ReactivationChanged) => {
            &&& next.stage is Done
            &&& fails_with(state, action, |e: ExistingRuntimeError| e is ExistingRuntimeChanged)
        },
        (ExistingRuntimeStage::Reactivating, ExistingRuntimeEvent::Reactivated) => {
            &&& next.stage is Done
            &&& reuses(state, action, "runtime "@ + id + " reactivated as Current"@)
        },
        _ => {
            &&& next.stage == state.stage
            &&& action.progress@.len() == 0
            &&& action.command is Ignore
        },
    }
}

fn finish_error(error: ExistingRuntimeError) -> (r: ExistingRuntimeAction)
    ensures
        r.progress@.len() == 0,
        r.command == (ExistingRuntimeCommand::Finish { result: Err(error) }),
{
    ExistingRuntimeAction { progress: Vec::new(), command: ExistingRuntimeCommand::Finish { result: Err(error) } }
}

fn plain(command: ExistingRuntimeCommand) -> (r: ExistingRuntimeAction)
    ensures
        r.progress@.len() == 0,
        r.command == command,
{
    ExistingRuntimeAction { progress: Vec::new(), command }
}

fn detail(prefix: &str, subject: &str, suffix: &str) -> (r: String)
    ensures
        r@ == prefix@ + subject@ + suffix@,
{
    let mut out = prefix.to_owned();
    push_str(&mut out, subject);
    push_str(&mut out, suffix);
    out
}

fn role_debug_text(role: ExistingRuntimeRole) -> (r: &'static str)
    ensures
        r@ == role_debug(role),
{
    match role {
        ExistingRuntimeRole::Current => "Current",
        ExistingRuntimeRole::Previous => "Previous",
    }
}

fn persist_command(runtime: &ExistingRuntime, observation: &ContainerObservation) -> (r: ExistingRuntimeCommand)
    ensures
        r matches ExistingRuntimeCommand::Persist { runtime_id, role, state, update } && runtime_id@
            == runtime.runtime_id@ && role == runtime.role && state@ == observed_state_value(
            observation.state,
        ) && update == (if observation.state is Missing {
            ObservationUpdate::MarkRemoved
        } else {
            match observation.endpoint {
                Some(endpoint) => ObservationUpdate::StateAndPort { port: endpoint.port },
                None => ObservationUpdate::StateOnly,
            }
        }),
{
    ExistingRuntimeCommand::Persist {
        runtime_id: runtime.runtime_id.clone(),
        role: runtime.role,
        state: observed_state_database_value(&observation.state),
        update: observation_update(observation),
    }
}

fn reuse(
    application_name: &str,
    commit_sha: &str,
    runtime: &ExistingRuntime,
    suffix: &str,
) -> (r: ExistingRuntimeAction)
    ensures
        r.progress@.len() == 1,
        completed(
            r.progress@[0],
            DeploymentStep::ReconcileRuntime,
            "runtime "@ + runtime.runtime_id@ + suffix@,
        ),
        r.command matches ExistingRuntimeCommand::Finish { result: Ok(Some(deployed)) }
            && deployed.deployment_id@ == runtime.deployment_id@ && deployed.runtime_id@
            == runtime.runtime_id@ && deployed.container_name@ == container_name_text(
            application_name@,
            commit_sha@,
        ) && deployed.commit_sha@ == commit_sha@ && deployed.finished_at@ == runtime.finished_at@,
{
    let mut progress = Vec::new();
    progress.push(
        DeploymentProgress::StepCompleted {
            step: DeploymentStep::ReconcileRuntime,
            detail: detail("runtime ", runtime.runtime_id.as_str(), suffix),
        },
    );
    let deployed = DeployedInternalRevision {
        deployment_id: runtime.deployment_id.clone(),
        runtime_id: runtime.runtime_id.clone(),
        container_name: container_name(application_name, commit_sha),
        commit_sha: commit_sha.to_owned(),
        finished_at: runtime.finished_at.clone(),
    };
    ExistingRuntimeAction { progress, command: ExistingRuntimeCommand::Finish { result: Ok(Some(deployed)) } }
}

impl ExistingRuntimeState {
    /// A reconciliation of `runtime` for the requested commit, not yet begun.
    pub fn new(
        application_id: String,
        application_name: String,
        commit_sha: String,
        health_path: String,
        expected_status: u16,
        runtime: ExistingRuntime,
    ) -> (r: Self)
        ensures
            r.application_id == application_id,
            r.application_name == application_name,
            r.commit_sha == commit_sha,
            r.health_path == health_path,
            r.expected_status == expected_status,
            r.runtime == runtime,
            r.stage is Ready,
    {
        ExistingRuntimeState {
            application_id,
            application_name,
            commit_sha,
            health_path,
            expected_status,
            runtime,
            stage: ExistingRuntimeStage::Ready,
        }
    }
}

/// The step after an observation was recorded: see `after_persist`.
fn step_after_persist(
    state: &ExistingRuntimeState,
    observation: ContainerObservation,
    restarted: bool,
    updated: u64,
) -> (r: (ExistingRuntimeStage, ExistingRuntimeAction))
    ensures
        after_persist(
            *state,
            observation,
            restarted,
            updated,
            ExistingRuntimeState { stage: r.0, ..*state },
            r.1,
        ),
{
    let runtime_id = state.runtime.runtime_id.clone();
    if updated != 1 {
        return (
            ExistingRuntimeStage::Done,
            finish_error(ExistingRuntimeError::ExistingRuntimeChanged { runtime_id }),
        );
    }
    let ContainerObservation { state: observed, endpoint } = observation;
    if let ObservedRuntimeState::Running = observed {
        if let Some(endpoint) = endpoint {
            return (
                ExistingRuntimeStage::CheckingHealth,
                plain(
                    ExistingRuntimeCommand::CheckHealth {
                        endpoint,
                        health_path: state.health_path.clone(),
                        expected_status: state.expected_status,
                    },
                ),
            );
        }
    }
    if restarted {
        return (
            ExistingRuntimeStage::Done,
            finish_error(
                ExistingRuntimeError::ExistingRuntimeUnavailable { runtime_id, state: observed },
            ),
        );
    }
    match observed {
        ObservedRuntimeState::Missing => {
            let mut progress = Vec::new();
            progress.push(
                DeploymentProgress::StepCompleted {
                    step: DeploymentStep::ReconcileRuntime,
                    detail: detail(
                        "runtime ",
                        runtime_id.as_str(),
                        " is missing; a new deployment is required",
                    ),
                },
            );
            (
                ExistingRuntimeStage::Done,
                ExistingRuntimeAction {
                    progress,
                    command: ExistingRuntimeCommand::Finish { result: Ok(None) },
                },
            )
        },
        ObservedRuntimeState::Created | ObservedRuntimeState::Stopped => (
            ExistingRuntimeStage::Restarting,
            plain(
                ExistingRuntimeCommand::Start {
                    container_id: state.runtime.external_runtime_id.clone(),
                },
            ),
        ),
        observed => (
            ExistingRuntimeStage::Done,
            finish_error(
                ExistingRuntimeError::ExistingRuntimeUnavailable { runtime_id, state: observed },
            ),
        ),
    }
}

/// Decides the next step of a reconciliation from what the last one reported.
pub fn existing_runtime_step(state: ExistingRuntimeState, event: ExistingRuntimeEvent) -> (r: (
    ExistingRuntimeState,
    ExistingRuntimeAction,
))
    ensures
        existing_runtime_transition(state, event, r.0, r.1),
{
    let ghost old_state = state;
    let ExistingRuntimeState {
        application_id,
        application_name,
        commit_sha,
        health_path,
        expected_status,
        runtime,
        stage,
    } = state;
    let context = ExistingRuntimeState {
        application_id,
        application_name,
        commit_sha,
        health_path,
        expected_status,
        runtime,
        stage: ExistingRuntimeStage::Done,
    };
    assert(context == ExistingRuntimeState { stage: ExistingRuntimeStage::Done, ..old_state });
    let id = context.runtime.runtime_id.as_str();
    let (next_stage, action): (ExistingRuntimeStage, ExistingRuntimeAction) = match (stage, event) {
        (ExistingRuntimeStage::Ready, ExistingRuntimeEvent::Begin) => {
            let mut text = detail("runtime ", id, ", role ");
            push_str(&mut text, role_debug_text(context.runtime.role));
            push_str(&mut text, ", commit ");
            push_str(&mut text, context.commit_sha.as_str());
            let mut progress = Vec::new();
            progress.push(
                DeploymentProgress::StepStarted { step: DeploymentStep::ReconcileRuntime, detail: text },
            );
            (
                ExistingRuntimeStage::Observing,
                ExistingRuntimeAction {
                    progress,
                    command: ExistingRuntimeCommand::Observe {
                        container_id: context.runtime.external_runtime_id.clone(),
                        container_port: context.runtime.container_port,
                    },
                },
            )
        },
        (ExistingRuntimeStage::Observing, ExistingRuntimeEvent::ObservationFailed { message })
        | (ExistingRuntimeStage::Reobserving, ExistingRuntimeEvent::ObservationFailed { message }) => (
            ExistingRuntimeStage::Done,
            finish_error(
                ExistingRuntimeError::ObserveExistingRuntime { runtime_id: id.to_owned(), message },
            ),
        ),
        (ExistingRuntimeStage::Observing, ExistingRuntimeEvent::Observed { observation }) => {
            let command = persist_command(&context.runtime, &observation);
            (ExistingRuntimeStage::Persisting { observation }, plain(command))
        },
        (ExistingRuntimeStage::Reobserving, ExistingRuntimeEvent::Observed { observation }) => {
            let command = persist_command(&context.runtime, &observation);
            (ExistingRuntimeStage::PersistingRestarted { observation }, plain(command))
        },
        (ExistingRuntimeStage::Persisting { .. }, ExistingRuntimeEvent::PersistFailed { message })
        | (
            ExistingRuntimeStage::PersistingRestarted { .. },
            ExistingRuntimeEvent::PersistFailed { message },
        ) => (
            ExistingRuntimeStage::Done,
            finish_error(
                ExistingRuntimeError::PersistExistingRuntime { runtime_id: id.to_owned(), message },
            ),
        ),
        (ExistingRuntimeStage::Persisting { observation }, ExistingRuntimeEvent::Persisted { updated }) => {
            step_after_persist(&context, observation, false, updated)
        },
        (
            ExistingRuntimeStage::PersistingRestarted { observation },
            ExistingRuntimeEvent::Persisted { updated },
        ) => step_after_persist(&context, observation, true, updated),
        (ExistingRuntimeStage::Restarting, ExistingRuntimeEvent::StartFailed { message }) => (
            ExistingRuntimeStage::Done,
            finish_error(
                ExistingRuntimeError::StartExistingRuntime { runtime_id: id.to_owned(), message },
            ),
        ),
        (ExistingRuntimeStage::Restarting, ExistingRuntimeEvent::StartSucceeded) => (
            ExistingRuntimeStage::Reobserving,
            plain(
                ExistingRuntimeCommand::Observe {
                    container_id: context.runtime.external_runtime_id.clone(),
                    container_port: context.runtime.container_port,
                },
            ),
        ),
        (ExistingRuntimeStage::CheckingHealth, ExistingRuntimeEvent::HealthCheckFailed { message }) => (
            ExistingRuntimeStage::Done,
            finish_error(
                ExistingRuntimeError::CheckExistingRuntime { runtime_id: id.to_owned(), message },
            ),
        ),
        (ExistingRuntimeStage::CheckingHealth, ExistingRuntimeEvent::Unhealthy { result }) => (
            ExistingRuntimeStage::Done,
            finish_error(
                ExistingRuntimeError::ExistingRuntimeUnhealthy { runtime_id: id.to_owned(), result },
            ),
        ),
        (ExistingRuntimeStage::CheckingHealth, ExistingRuntimeEvent::Healthy) => match context.runtime.role {
            ExistingRuntimeRole::Previous => (
                ExistingRuntimeStage::Reactivating,
                plain(
                    ExistingRuntimeCommand::Reactivate {
                        application_id: context.application_id.clone(),
                        runtime_id: id.to_owned(),
                    },
                ),
            ),
            ExistingRuntimeRole::Current => (
                ExistingRuntimeStage::Done,
                reuse(
                    context.application_name.as_str(),
                    context.commit_sha.as_str(),
                    &context.runtime,
                    " is running and healthy",
                ),
            ),
        },
        (ExistingRuntimeStage::Reactivating, ExistingRuntimeEvent::ReactivationFailed { message }) => (
            ExistingRuntimeStage::Done,
            finish_error(
                ExistingRuntimeError::ReactivatePreviousRuntime { runtime_id: id.to_owned(), message },
            ),
        ),
        (ExistingRuntimeStage::Reactivating, ExistingRuntimeEvent::ReactivationChanged) => (
            ExistingRuntimeStage::Done,
            finish_error(ExistingRuntimeError::ExistingRuntimeChanged { runtime_id: id.to_owned() }),
        ),
        (ExistingRuntimeStage::Reactivating, ExistingRuntimeEvent::Reactivated) => (
            ExistingRuntimeStage::Done,
            reuse(
                context.application_name.as_str(),
                context.commit_sha.as_str(),
                &context.runtime,
                " reactivated as Current",
            ),
        ),
        (stage, _) => (stage, plain(ExistingRuntimeCommand::Ignore)),
    };
    (ExistingRuntimeState { stage: next_stage, ..context }, action)
}

/// A retained runtime is reused only after its health check passed: as Current
/// right away, or as Previous once it was reactivated.
pub proof fn lemma_runtime_reused_only_when_healthy(
    state: ExistingRuntimeState,
    event: ExistingRuntimeEvent,
    next: ExistingRuntimeState,
    action: ExistingRuntimeAction,
)
    requires
        existing_runtime_transition(state, event, next, action),
        action.command matches ExistingRuntimeCommand::Finish { result: Ok(Some(_)) },
    ensures
        (state.stage is CheckingHealth && event is Healthy && state.runtime.role
            == ExistingRuntimeRole::Current) || (state.stage is Reactivating && event is Reactivated),
{
}

/// Reactivation is asked only for a previous runtime that just passed its health check.
pub proof fn lemma_reactivation_follows_a_healthy_check(
    state: ExistingRuntimeState,
    event: ExistingRuntimeEvent,
    next: ExistingRuntimeState,
    action: ExistingRuntimeAction,
)
    requires
        existing_runtime_transition(state, event, next, action),
        action.command is Reactivate,
    ensures
        state.stage is CheckingHealth,
        event is Healthy,
        state.runtime.role == ExistingRuntimeRole::Previous,
{
}

/// A new deployment is required only when the first observation, recorded on exactly
/// one row, found the container missing.
pub proof fn lemma_new_deployment_only_for_a_missing_container(
    state: ExistingRuntimeState,
    event: ExistingRuntimeEvent,
    next: ExistingRuntimeState,
    action: ExistingRuntimeAction,
)
    requires
        existing_runtime_transition(state, event, next, action),
        action.command matches ExistingRuntimeCommand::Finish { result: Ok(None) },
    ensures
        state.stage matches ExistingRuntimeStage::Persisting { observation } && observation.state is Missing,
        event == (ExistingRuntimeEvent::Persisted { updated: 1 }),
{
}

/// A retained runtime first observed as created or stopped, with that observation
/// recorded on its one row, is started: its own container, then observed again.
pub proof fn lemma_created_or_stopped_runtime_is_restarted(
    state: ExistingRuntimeState,
    event: ExistingRuntimeEvent,
    next: ExistingRuntimeState,
    action: ExistingRuntimeAction,
)
    requires
        existing_runtime_transition(state, event, next, action),
        state.stage matches ExistingRuntimeStage::Persisting { observation } && (observation.state is Created
            || observation.state is Stopped),
        event == (ExistingRuntimeEvent::Persisted { updated: 1 }),
    ensures
        next.stage is Restarting,
        action.command matches ExistingRuntimeCommand::Start { container_id } && container_id@
            == state.runtime.external_runtime_id@,
{
}

/// A runtime is reported unavailable only in the state it was observed in, and never
/// while it runs with an endpoint; on the first observation a missing, created or
/// stopped container is never unavailable (it needs a new deployment or a restart).
pub proof fn lemma_unavailable_only_when_unreconcilable(
    state: ExistingRuntimeState,
    event: ExistingRuntimeEvent,
    next: ExistingRuntimeState,
    action: ExistingRuntimeAction,
)
    requires
        existing_runtime_transition(state, event, next, action),
        action.command matches ExistingRuntimeCommand::Finish {
            result: Err(ExistingRuntimeError::ExistingRuntimeUnavailable { .. }),
        },
    ensures
        ({
            let s = action.command->result->Err_0->state;
            &&& event is Persisted
            &&& match state.stage {
                ExistingRuntimeStage::Persisting { observation } => observation.state == s && !(s is Missing)
                    && !(s is Created) && !(s is Stopped) && !(s is Running && observation.endpoint is Some),
                ExistingRuntimeStage::PersistingRestarted { observation } => observation.state == s && !(
                s is Running && observation.endpoint is Some),
                _ => false,
            }
        }),
{
}

impl ExistingRuntimeError {
    pub fn message(&self) -> (r: String)
        ensures
            r@ == match *self {
                ExistingRuntimeError::ObserveExistingRuntime { runtime_id, message } =>
                    "failed to observe existing runtime `"@ + runtime_id@ + "`: "@ + message@,
                ExistingRuntimeError::StartExistingRuntime { runtime_id, message } =>
                    "failed to restart existing runtime `"@ + runtime_id@ + "`: "@ + message@,
                ExistingRuntimeError::PersistExistingRuntime { runtime_id, message } =>
                    "failed to persist observation of existing runtime `"@ + runtime_id@ + "`: "@
                    + message@,
                ExistingRuntimeError::ExistingRuntimeChanged { runtime_id } => "existing runtime `"@
                    + runtime_id@ + "` changed while it was being reconciled"@,
                ExistingRuntimeError::ExistingRuntimeUnavailable { runtime_id, state } =>
                    "existing runtime `"@ + runtime_id@ + "` cannot be reconciled from state "@
                    + observed_state_debug(state),
                ExistingRuntimeError::CheckExistingRuntime { runtime_id, message } =>
                    "failed to check existing runtime `"@ + runtime_id@ + "` health: "@ + message@,
                ExistingRuntimeError::ExistingRuntimeUnhealthy { runtime_id, result } =>
                    "existing runtime `"@ + runtime_id@ + "` is unhealthy: "@ + result@,
                ExistingRuntimeError::ReactivatePreviousRuntime { runtime_id, message } =>
                    "failed to reactivate previous runtime `"@ + runtime_id@ + "`: "@ + message@,
            },
    {
        match self {
            ExistingRuntimeError::ObserveExistingRuntime { runtime_id, message } => {
                let mut out = detail("failed to observe existing runtime `", runtime_id.as_str(), "`: ");
                push_str(&mut out, message.as_str());
                out
            },
            ExistingRuntimeError::StartExistingRuntime { runtime_id, message } => {
                let mut out = detail("failed to restart existing runtime `", runtime_id.as_str(), "`: ");
                push_str(&mut out, message.as_str());
                out
            },
            ExistingRuntimeError::PersistExistingRuntime { runtime_id, message } => {
                let mut out = detail(
                    "failed to persist observation of existing runtime `",
                    runtime_id.as_str(),
                    "`: ",
                );
                push_str(&mut out, message.as_str());
                out
            },
            ExistingRuntimeError::ExistingRuntimeChanged { runtime_id } => detail(
                "existing runtime `",
                runtime_id.as_str(),
                "` changed while it was being reconciled",
            ),
            ExistingRuntimeError::ExistingRuntimeUnavailable { runtime_id, state } => {
                let mut out = detail(
                    "existing runtime `",
                    runtime_id.as_str(),
                    "` cannot be reconciled from state ",
                );
                let shown = super::observed_state_debug_text(state);
                push_str(&mut out, shown.as_str());
                out
            },
            ExistingRuntimeError::CheckExistingRuntime { runtime_id, message } => {
                let mut out = detail("failed to check existing runtime `", runtime_id.as_str(), "` health: ");
                push_str(&mut out, message.as_str());
                out
            },
            ExistingRuntimeError::ExistingRuntimeUnhealthy { runtime_id, result } => {
                let mut out = detail("existing runtime `", runtime_id.as_str(), "` is unhealthy: ");
                push_str(&mut out, result.as_str());
                out
            },
            ExistingRuntimeError::ReactivatePreviousRuntime { runtime_id, message } => {
                let mut out = detail("failed to reactivate previous runtime `", runtime_id.as_str(), "`: ");
                push_str(&mut out, message.as_str());
                out
            },
        }
    }
}

} // verus!
