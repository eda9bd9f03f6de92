//! Running a created candidate container up to promotion: start it, observe it,
//! register it, mark the deployment as verifying, and promote it after its health
//! check. Each step is work for the caller; this module decides, from what the
//! caller reports, the next step, the progress to show, and the failure to record.

use vstd::prelude::*;

use super::{
    candidate_endpoint, failure_already_persisted, failure_needing_persistence, DeploymentProgress,
    DeploymentStep, FailedExecution, RuntimeObservationFailure,
};
use crate::cli::panels::{endpoint_string, endpoint_text};
use crate::create_deployment::DeploymentStatus;
use crate::domain::runtime::SocketAddress;
use crate::local_runtime::{ContainerObservation, ObservedRuntimeState};
use crate::text::{decimal, push_decimal, push_str};

verus! {

/// Where a candidate's execution stands.
#[derive(Debug, PartialEq, Eq)]
pub enum CandidateStage {
    /// Nothing has been asked yet.
    Ready,
    /// The container is being started.
    Starting,
    /// The started container is being observed.
    Observing,
    /// The running container is being registered with this endpoint.
    Registering { endpoint: SocketAddress },
    /// The deployment is being marked as verifying the registered runtime.
    Advancing { runtime_id: String },
    /// The runtime is being health-checked and promoted.
    Promoting { runtime_id: String },
    /// The execution succeeded or failed; nothing more is asked.
    Done,
}

/// A candidate's execution: the deployment, the candidate container, what the
/// application publishes and answers health checks on, and the stage reached.
#[derive(Debug)]
pub struct CandidateState {
    pub deployment_id: String,
    pub container_id: String,
    pub container_port: u16,
    pub health_path: String,
    pub expected_status: u16,
    pub stage: CandidateStage,
}

/// What the caller reports back about the step it was asked to run.
#[derive(Debug)]
pub enum CandidateEvent {
    Begin,
    StartSucceeded,
    StartFailed { message: String },
    Observed { observation: ContainerObservation },
    ObservationFailed { message: String },
    Registered { runtime_id: String },
    RegistrationFailed { message: String },
    Advanced,
    AdvanceFailed { message: String },
    Promoted { finished_at: String },
    /// Promotion found the candidate unhealthy and already recorded the failure.
    CandidateUnhealthy { message: String },
    PromotionFailed { message: String },
}

/// The step the caller runs next.
#[derive(Debug)]
pub enum CandidateCommand {
    StartContainer { container_id: String },
    ObserveContainer { container_id: String, container_port: u16 },
    RegisterRuntime {
        deployment_id: String,
        container_id: String,
        endpoint: SocketAddress,
        container_port: u16,
    },
    /// Advance the deployment from `Starting` to `VerifyingInternal`.
    MarkRuntimeRunning { deployment_id: String },
    Promote { runtime_id: String, health_path: String, expected_status: u16 },
    /// The candidate is promoted: the execution result.
    Succeed { runtime_id: String, finished_at: String },
    /// The execution failed; the finalizer records and cleans up.
    Fail { failure: FailedExecution },
    /// The report does not answer the step that was asked: nothing to do.
    Ignore,
}

/// The progress to show, in order, then the step to run.
#[derive(Debug)]
pub struct CandidateAction {
    pub progress: Vec<DeploymentProgress>,
    pub command: CandidateCommand,
}

pub open spec fn started(p: DeploymentProgress, step: DeploymentStep, detail: Seq<char>) -> bool {
    p matches DeploymentProgress::StepStarted { step: s, detail: d } && s == step && d@ == detail
}

pub open spec fn completed(p: DeploymentProgress, step: DeploymentStep, detail: Seq<char>) -> bool {
    p matches DeploymentProgress::StepCompleted { step: s, detail: d } && s == step && d@ == detail
}

pub open spec fn state_changed(p: DeploymentProgress, deployment_id: Seq<char>, status: DeploymentStatus) -> bool {
    p matches DeploymentProgress::StateChanged { deployment_id: d, status: s } && d@ == deployment_id
        && s == status
}

/// `f` is the failure `code` with `message`, naming the candidate container and,
/// when given, the registered runtime.
pub open spec fn failure_is(
    f: FailedExecution,
    code: &'static str,
    message: Seq<char>,
    container_id: Seq<char>,
    runtime_id: Option<Seq<char>>,
    persisted: bool,
) -> bool {
    &&& f.code == code
    &&& f.message@ == message
    &&& f.container_id matches Some(c) && c@ == container_id
    &&& match (runtime_id, f.runtime_id) {
        (Some(id), Some(x)) => x@ == id,
        (None, None) => true,
        _ => false,
    }
    &&& f.failure_persisted == persisted
}

/// The failure the action reports, with no progress.
pub open spec fn fails_with(
    action: CandidateAction,
    code: &'static str,
    message: Seq<char>,
    container_id: Seq<char>,
    runtime_id: Option<Seq<char>>,
    persisted: bool,
) -> bool {
    &&& action.progress@.len() == 0
    &&& action.command matches CandidateCommand::Fail { failure }
    &&& failure_is(failure, code, message, container_id, runtime_id, persisted)
}

/// Why an observation keeps the candidate from being registered.
pub open spec fn observation_failure_text(observation: ContainerObservation) -> Option<Seq<char>> {
    if !(observation.state is Running) {
        Some("expected runtime to be Running, got "@ + super::observed_state_debug(observation.state))
    } else if observation.endpoint is None {
        Some("running runtime has no loopback endpoint"@)
    } else {
        None
    }
}

/// One step of a candidate's execution. The context never changes. An event that does
/// not answer the current stage changes nothing and asks for nothing.
pub open spec fn candidate_transition(
    state: CandidateState,
    event: CandidateEvent,
    next: CandidateState,
    action: CandidateAction,
) -> bool {
    let c = state.container_id@;
    let d = state.deployment_id@;
    &&& next.deployment_id == state.deployment_id
    &&& next.container_id == state.container_id
    &&& next.container_port == state.container_port
    &&& next.health_path == state.health_path
    &&& next.expected_status == state.expected_status
    &&& match (state.stage, event) {
        (CandidateStage::Ready, CandidateEvent::Begin) => {
            &&& next.stage is Starting
            &&& action.progress@.len() == 1
            &&& started(action.progress@[0], DeploymentStep::StartContainer, "container "@ + c)
            &&& action.command matches CandidateCommand::StartContainer { container_id } && container_id@ == c
        },
        (CandidateStage::Starting, CandidateEvent::StartSucceeded) => {
            &&& next.stage is Observing
            &&& action.progress@.len() == 2
            &&& completed(action.progress@[0], DeploymentStep::StartContainer, "container "@ + c)
            &&& started(action.progress@[1], DeploymentStep::ObserveContainer, "container "@ + c)
            &&& action.command matches CandidateCommand::ObserveContainer { container_id, container_port }
                && container_id@ == c && container_port == state.container_port
        },
        (CandidateStage::Starting, CandidateEvent::StartFailed { message }) => {
            &&& next.stage is Done
            &&& fails_with(action, "runtime_start_failed", message@, c, None, false)
        },
        (CandidateStage::Observing, CandidateEvent::ObservationFailed { message }) => {
            &&& next.stage is Done
            &&& fails_with(action, "runtime_observation_failed", message@, c, None, false)
        },
        (CandidateStage::Observing, CandidateEvent::Observed { observation }) => match observation_failure_text(
            observation,
        ) {
            Some(text) => {
                &&& next.stage is Done
                &&& fails_with(action, "runtime_observation_failed", text, c, None, false)
            },
            None => {
                let e = observation.endpoint->0;
                &&& next.stage == CandidateStage::Registering { endpoint: e }
                &&& action.progress@.len() == 2
                &&& completed(
                    action.progress@[0],
                    DeploymentStep::ObserveContainer,
                    "state Running, endpoint "@ + endpoint_text(e),
                )
                &&& started(
                    action.progress@[1],
                    DeploymentStep::RegisterCandidate,
                    "container "@ + c + ", endpoint "@ + endpoint_text(e),
                )
                &&& action.command matches CandidateCommand::RegisterRuntime {
                    deployment_id,
                    container_id,
                    endpoint,
                    container_port,
                } && deployment_id@ == d && container_id@ == c && endpoint == e && container_port
                    == state.container_port
            },
        },
        (CandidateStage::Registering { .. }, CandidateEvent::RegistrationFailed { message }) => {
            &&& next.stage is Done
            &&& fails_with(action, "runtime_registration_failed", message@, c, None, false)
        },
        (CandidateStage::Registering { .. }, CandidateEvent::Registered { runtime_id }) => {
            &&& next.stage == CandidateStage::Advancing { runtime_id }
            &&& action.progress@.len() == 1
            &&& completed(action.progress@[0], DeploymentStep::RegisterCandidate, "runtime "@ + runtime_id@)
            &&& action.command matches CandidateCommand::MarkRuntimeRunning { deployment_id }
                && deployment_id@ == d
        },
        (CandidateStage::Advancing { runtime_id }, CandidateEvent::AdvanceFailed { message }) => {
            &&& next.stage is Done
            &&& fails_with(action, "deployment_transition_failed", message@, c, Some(runtime_id@), false)
        },
        (CandidateStage::Advancing { runtime_id }, CandidateEvent::Advanced) => {
            &&& next.stage matches CandidateStage::Promoting { runtime_id: r } && r@ == runtime_id@
            &&& action.progress@.len() == 2
            &&& state_changed(action.progress@[0], d, DeploymentStatus::VerifyingInternal)
            &&& started(
                action.progress@[1],
                DeploymentStep::HealthCheckAndPromotion,
                "runtime "@ + runtime_id@ + ", path "@ + state.health_path@ + ", expected status "@
                    + decimal(state.expected_status as nat),
            )
            &&& action.command matches CandidateCommand::Promote { runtime_id: r, health_path, expected_status }
                && r@ == runtime_id@ && health_path@ == state.health_path@ && expected_status
                == state.expected_status
        },
        (CandidateStage::Promoting { runtime_id }, CandidateEvent::CandidateUnhealthy { message }) => {
            &&& next.stage is Done
            &&& fails_with(action, "health_check_failed", message@, c, Some(runtime_id@), true)
        },
        (CandidateStage::Promoting { runtime_id }, CandidateEvent::PromotionFailed { message }) => {
            &&& next.stage is Done
            &&& fails_with(action, "candidate_promotion_failed", message@, c, Some(runtime_id@), false)
        },
        (CandidateStage::Promoting { runtime_id }, CandidateEvent::Promoted { finished_at }) => {
            &&& next.stage is Done
            &&& action.progress@.len() == 2
            &&& completed(
                action.progress@[0],
                DeploymentStep::HealthCheckAndPromotion,
                "runtime "@ + runtime_id@ + " promoted to Current"@,
            )
            &&& state_changed(action.progress@[1], d, DeploymentStatus::Succeeded)
            &&& action.command matches CandidateCommand::Succeed { runtime_id: r, finished_at: f }
                && r@ == runtime_id@ && f == finished_at
        },
        _ => {
            &&& next.stage == state.stage
            &&& action.progress@.len() == 0
            &&& action.command is Ignore
        },
    }
}

fn detail(prefix: &str, subject: &str) -> (r: String)
    ensures
        r@ == prefix@ + subject@,
{
    let mut out = prefix.to_owned();
    push_str(&mut out, subject);
    out
}

fn no_progress() -> (r: Vec<DeploymentProgress>)
    ensures
        r@.len() == 0,
{
    Vec::new()
}

impl CandidateState {
    /// A candidate container about to be started for a deployment.
    pub fn new(
        deployment_id: String,
        container_id: String,
        container_port: u16,
        health_path: String,
        expected_status: u16,
    ) -> (r: Self)
        ensures
            r.deployment_id == deployment_id,
            r.container_id == container_id,
            r.container_port == container_port,
            r.health_path == health_path,
            r.expected_status == expected_status,
            r.stage is Ready,
    {
        CandidateState {
            deployment_id,
            container_id,
            container_port,
            health_path,
            expected_status,
            stage: CandidateStage::Ready,
        }
    }
}

/// Decides the next step of a candidate's execution from what the last one reported.
pub fn candidate_step(state: CandidateState, event: CandidateEvent) -> (r: (CandidateState, CandidateAction))
    ensures
        candidate_transition(state, event, r.0, r.1),
{
    let CandidateState { deployment_id, container_id, container_port, health_path, expected_status, stage } =
        state;
    let c = container_id.as_str();
    let (next_stage, progress, command): (CandidateStage, Vec<DeploymentProgress>, CandidateCommand) =
        match (stage, event) {
        (CandidateStage::Ready, CandidateEvent::Begin) => {
            let mut progress = Vec::new();
            progress.push(
                DeploymentProgress::StepStarted {
                    step: DeploymentStep::StartContainer,
                    detail: detail("container ", c),
                },
            );
            (
                CandidateStage::Starting,
                progress,
                CandidateCommand::StartContainer { container_id: c.to_owned() },
            )
        },
        (CandidateStage::Starting, CandidateEvent::StartSucceeded) => {
            let mut progress = Vec::new();
            progress.push(
                DeploymentProgress::StepCompleted {
                    step: DeploymentStep::StartContainer,
                    detail: detail("container ", c),
                },
            );
            progress.push(
                DeploymentProgress::StepStarted {
                    step: DeploymentStep::ObserveContainer,
                    detail: detail("container ", c),
                },
            );
            (
                CandidateStage::Observing,
                progress,
                CandidateCommand::ObserveContainer { container_id: c.to_owned(), container_port },
            )
        },
        (CandidateStage::Starting, CandidateEvent::StartFailed { message }) => (
            CandidateStage::Done,
            no_progress(),
            CandidateCommand::Fail {
                failure: failure_needing_persistence("runtime_start_failed", message, Some(c), None),
            },
        ),
        (CandidateStage::Observing, CandidateEvent::ObservationFailed { message }) => (
            CandidateStage::Done,
            no_progress(),
            CandidateCommand::Fail {
                failure: failure_needing_persistence(
                    "runtime_observation_failed",
                    message,
                    Some(c),
                    None,
                ),
            },
        ),
        (CandidateStage::Observing, CandidateEvent::Observed { observation }) => {
            let ghost o = observation;
            match candidate_endpoint(observation) {
                Err(failure) => {
                    let message = failure.message();
                    proof {
                        if !(o.state is Running) {
                            assert(failure == RuntimeObservationFailure::NotRunning { actual: o.state });
                        }
                    }
                    (
                        CandidateStage::Done,
                        no_progress(),
                        CandidateCommand::Fail {
                            failure: failure_needing_persistence(
                                "runtime_observation_failed",
                                message,
                                Some(c),
                                None,
                            ),
                        },
                    )
                },
                Ok(endpoint) => {
                    let shown = endpoint_string(endpoint);
                    let mut observed = "state Running, endpoint ".to_owned();
                    push_str(&mut observed, shown.as_str());
                    let mut registering = detail("container ", c);
                    push_str(&mut registering, ", endpoint ");
                    push_str(&mut registering, shown.as_str());
                    let mut progress = Vec::new();
                    progress.push(
                        DeploymentProgress::StepCompleted {
                            step: DeploymentStep::ObserveContainer,
                            detail: observed,
                        },
                    );
                    progress.push(
                        DeploymentProgress::StepStarted {
                            step: DeploymentStep::RegisterCandidate,
                            detail: registering,
                        },
                    );
                    (
                        CandidateStage::Registering { endpoint },
                        progress,
                        CandidateCommand::RegisterRuntime {
                            deployment_id: deployment_id.clone(),
                            container_id: c.to_owned(),
                            endpoint,
                            container_port,
                        },
                    )
                },
            }
        },
        (CandidateStage::Registering { endpoint }, CandidateEvent::RegistrationFailed { message }) => (
            CandidateStage::Done,
            no_progress(),
            CandidateCommand::Fail {
                failure: failure_needing_persistence(
                    "runtime_registration_failed",
                    message,
                    Some(c),
                    None,
                ),
            },
        ),
        (CandidateStage::Registering { endpoint }, CandidateEvent::Registered { runtime_id }) => {
            let mut progress = Vec::new();
            progress.push(
                DeploymentProgress::StepCompleted {
                    step: DeploymentStep::RegisterCandidate,
                    detail: detail("runtime ", runtime_id.as_str()),
                },
            );
            (
                CandidateStage::Advancing { runtime_id },
                progress,
                CandidateCommand::MarkRuntimeRunning { deployment_id: deployment_id.clone() },
            )
        },
        (CandidateStage::Advancing { runtime_id }, CandidateEvent::AdvanceFailed { message }) => (
            CandidateStage::Done,
            no_progress(),
            CandidateCommand::Fail {
                failure: failure_needing_persistence(
                    "deployment_transition_failed",
                    message,
                    Some(c),
                    Some(runtime_id.as_str()),
                ),
            },
        ),
        (CandidateStage::Advancing { runtime_id }, CandidateEvent::Advanced) => {
            let mut checking = detail("runtime ", runtime_id.as_str());
            push_str(&mut checking, ", path ");
            push_str(&mut checking, health_path.as_str());
            push_str(&mut checking, ", expected status ");
            push_decimal(&mut checking, expected_status as u64);
            let mut progress = Vec::new();
            progress.push(
                DeploymentProgress::StateChanged {
                    deployment_id: deployment_id.clone(),
                    status: DeploymentStatus::VerifyingInternal,
                },
            );
            progress.push(
                DeploymentProgress::StepStarted {
                    step: DeploymentStep::HealthCheckAndPromotion,
                    detail: checking,
                },
            );
            let command = CandidateCommand::Promote {
                runtime_id: runtime_id.clone(),
                health_path: health_path.clone(),
                expected_status,
            };
            (CandidateStage::Promoting { runtime_id }, progress, command)
        },
        (CandidateStage::Promoting { runtime_id }, CandidateEvent::CandidateUnhealthy { message }) => (
            CandidateStage::Done,
            no_progress(),
            CandidateCommand::Fail {
                failure: failure_already_persisted(
                    "health_check_failed",
                    message,
                    c,
                    runtime_id.as_str(),
                ),
            },
        ),
        (CandidateStage::Promoting { runtime_id }, CandidateEvent::PromotionFailed { message }) => (
            CandidateStage::Done,
            no_progress(),
            CandidateCommand::Fail {
                failure: failure_needing_persistence(
                    "candidate_promotion_failed",
                    message,
                    Some(c),
                    Some(runtime_id.as_str()),
                ),
            },
        ),
        (CandidateStage::Promoting { runtime_id }, CandidateEvent::Promoted { finished_at }) => {
            let mut progress = Vec::new();
            let mut promoted = detail("runtime ", runtime_id.as_str());
            push_str(&mut promoted, " promoted to Current");
            progress.push(
                DeploymentProgress::StepCompleted {
                    step: DeploymentStep::HealthCheckAndPromotion,
                    detail: promoted,
                },
            );
            progress.push(
                DeploymentProgress::StateChanged {
                    deployment_id: deployment_id.clone(),
                    status: DeploymentStatus::Succeeded,
                },
            );
            (
                CandidateStage::Done,
                progress,
                CandidateCommand::Succeed { runtime_id, finished_at },
            )
        },
        (stage, _) => (stage, no_progress(), CandidateCommand::Ignore),
    };
    (
        CandidateState {
            deployment_id,
            container_id,
            container_port,
            health_path,
            expected_status,
            stage: next_stage,
        },
        CandidateAction { progress, command },
    )
}

/// A candidate is promoted, and the execution succeeds, only when promotion reports
/// success for the registered runtime; no other report ends in success.
pub proof fn lemma_candidate_succeeds_only_after_promotion(
    state: CandidateState,
    event: CandidateEvent,
    next: CandidateState,
    action: CandidateAction,
)
    requires
        candidate_transition(state, event, next, action),
        action.command is Succeed,
    ensures
        state.stage is Promoting,
        event is Promoted,
{
}

/// Every failure names the candidate container, so the finalizer can remove it; only
/// an unhealthy candidate, whose failure promotion already recorded, is reported as
/// persisted.
pub proof fn lemma_candidate_failures_name_the_candidate(
    state: CandidateState,
    event: CandidateEvent,
    next: CandidateState,
    action: CandidateAction,
)
    requires
        candidate_transition(state, event, next, action),
        action.command is Fail,
    ensures
        action.command->failure.container_id matches Some(c) && c@ == state.container_id@,
        action.command->failure.failure_persisted <==> event is CandidateUnhealthy,
        next.stage is Done,
{
}

} // verus!
