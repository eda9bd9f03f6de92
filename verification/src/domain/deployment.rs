//! Deployments: activation attempts of a Release, and the single legal
//! transition table that every status change goes through.

use vstd::prelude::*;

use crate::domain::exposure::{DomainName, Visibility};
use crate::domain::git::CommitSha;
use crate::domain::identity::{ApplicationId, DeploymentId, ReleaseId, RuntimeInstanceId};
use crate::domain::release::Release;
use crate::domain::runtime::{
    ExpectedRuntimeEndpoint, ObservedRuntimeState, RuntimeRetirement, RuntimeState,
};
use crate::text::{is_trimmed, push_str, trim};

verus! {

/// One immutable attempt to activate a Release for an Application.
#[derive(Clone, Debug, PartialEq, Eq)]
pub struct Deployment {
    pub id: DeploymentId,
    pub application_id: ApplicationId,
    pub release_id: ReleaseId,
    pub deployment_type: DeploymentType,
    pub lifecycle: DeploymentLifecycle,
    pub source_revision: Option<SourceRevision>,
    pub requested_at: String,
    pub started_at: Option<String>,
}

impl Deployment {
    /// The lifecycle status of this deployment.
    pub fn status(&self) -> (r: DeploymentStatus)
        ensures
            r == lifecycle_status(self.lifecycle),
    {
        self.lifecycle.status()
    }
}

/// Incomplete activation work, or a terminal result with its durable evidence.
#[derive(Clone, Debug, PartialEq, Eq)]
pub enum DeploymentLifecycle {
    Pending,
    Starting,
    Verifying,
    Activating,
    Succeeded { finished_at: String },
    Failed { evidence: DeploymentFailureEvidence },
}

pub open spec fn lifecycle_status(l: DeploymentLifecycle) -> DeploymentStatus {
    match l {
        DeploymentLifecycle::Pending => DeploymentStatus::Pending,
        DeploymentLifecycle::Starting => DeploymentStatus::Starting,
        DeploymentLifecycle::Verifying => DeploymentStatus::Verifying,
        DeploymentLifecycle::Activating => DeploymentStatus::Activating,
        DeploymentLifecycle::Succeeded { .. } => DeploymentStatus::Succeeded,
        DeploymentLifecycle::Failed { .. } => DeploymentStatus::Failed,
    }
}

impl DeploymentLifecycle {
    pub fn status(&self) -> (r: DeploymentStatus)
        ensures
            r == lifecycle_status(*self),
    {
        match self {
            DeploymentLifecycle::Pending => DeploymentStatus::Pending,
            DeploymentLifecycle::Starting => DeploymentStatus::Starting,
            DeploymentLifecycle::Verifying => DeploymentStatus::Verifying,
            DeploymentLifecycle::Activating => DeploymentStatus::Activating,
            DeploymentLifecycle::Succeeded { .. } => DeploymentStatus::Succeeded,
            DeploymentLifecycle::Failed { .. } => DeploymentStatus::Failed,
        }
    }
}

/// Failure evidence; historical rows may predate complete diagnostics.
#[derive(Clone, Debug, PartialEq, Eq)]
pub enum DeploymentFailureEvidence {
    Complete(DeploymentFailure),
    Incomplete,
}

/// Complete terminal evidence for a failed Deployment.
#[derive(Clone, Debug, PartialEq, Eq)]
pub struct DeploymentFailure {
    pub code: String,
    pub stage: DeploymentStatus,
    pub message: String,
    pub finished_at: String,
}

/// Failure details are acceptable: a non-empty trimmed code and message, recorded
/// at a stage that was still performing activation work.
pub open spec fn valid_failure_details(code: Seq<char>, stage: DeploymentStatus, message: Seq<char>) -> bool {
    &&& code.len() > 0
    &&& trim(code) == code
    &&& message.len() > 0
    &&& trim(message) == message
    &&& !is_terminal(stage)
}

/// `trim(s) == s` for the characters of a string slice.
fn is_trimmed_text(s: &str) -> (r: bool)
    ensures
        r == (trim(s@) == s@),
{
    let v = crate::text::chars_of(s);
    let (a, b) = crate::text::trim_range(&v, 0, v.len());
    assert(v@.subrange(0, v@.len() as int) == v@);
    if a == 0 && b == v.len() {
        true
    } else {
        assert(trim(s@).len() != s@.len());
        false
    }
}

impl DeploymentFailure {
    pub fn validate_details(code: &str, stage: DeploymentStatus, message: &str) -> (r: Result<
        (),
        InvalidDeploymentFailure,
    >)
        ensures
            r is Ok <==> valid_failure_details(code@, stage, message@),
    {
        if code.is_empty() || !is_trimmed_text(code) || message.is_empty() || !is_trimmed_text(
            message,
        ) || !stage.is_nonterminal() {
            return Err(InvalidDeploymentFailure);
        }
        Ok(())
    }

    /// Complete evidence also requires the time the attempt finished.
    pub fn new(code: &str, stage: DeploymentStatus, message: &str, finished_at: String) -> (r: Result<
        Self,
        InvalidDeploymentFailure,
    >)
        ensures
            r is Ok <==> valid_failure_details(code@, stage, message@) && finished_at@.len() > 0,
            r matches Ok(f) ==> f.code@ == code@ && f.stage == stage && f.message@ == message@
                && f.finished_at@ == finished_at@,
    {
        Self::validate_details(code, stage, message)?;
        if finished_at.as_str().is_empty() {
            return Err(InvalidDeploymentFailure);
        }
        Ok(DeploymentFailure { code: code.to_owned(), stage, message: message.to_owned(), finished_at })
    }
}

/// Failure details that are missing, untrimmed, or recorded at a terminal stage.
#[derive(Clone, Copy, Debug, PartialEq, Eq)]
pub struct InvalidDeploymentFailure;

impl InvalidDeploymentFailure {
    pub fn message(&self) -> (r: &'static str)
        ensures
            r@ == "deployment failure requires trimmed code, message, timestamp, and a non-terminal stage"@,
    {
        "deployment failure requires trimmed code, message, timestamp, and a non-terminal stage"
    }
}

/// The registry of deployment failure classifications, one per semantic failure stage.
#[derive(Clone, Copy, Debug, PartialEq, Eq)]
pub enum DeploymentFailureCode {
    TestGate,
    RuntimeReconciliation,
    PublicConfigurationMissing,
    RuntimePortAllocation,
    RuntimeUnitCreation,
    RuntimeUnitReload,
    RuntimeStart,
    RuntimeResolution,
    RuntimeObservation,
    RuntimeRegistration,
    RuntimePortPersistence,
    DeploymentTransition,
    HealthCheck,
    ExposurePreparation,
    CaddyMaterialization,
    ExternalHealthCheck,
    CandidatePromotion,
    OperationInterrupted,
}

/// The stable persisted string of each failure code.
pub open spec fn failure_code_text(code: DeploymentFailureCode) -> Seq<char> {
    match code {
        DeploymentFailureCode::TestGate => "test_gate_failed"@,
        DeploymentFailureCode::RuntimeReconciliation => "runtime_reconciliation_failed"@,
        DeploymentFailureCode::PublicConfigurationMissing => "public_configuration_missing"@,
        DeploymentFailureCode::RuntimePortAllocation => "runtime_port_allocation_failed"@,
        DeploymentFailureCode::RuntimeUnitCreation => "runtime_unit_creation_failed"@,
        DeploymentFailureCode::RuntimeUnitReload => "runtime_unit_reload_failed"@,
        DeploymentFailureCode::RuntimeStart => "runtime_start_failed"@,
        DeploymentFailureCode::RuntimeResolution => "runtime_resolution_failed"@,
        DeploymentFailureCode::RuntimeObservation => "runtime_observation_failed"@,
        DeploymentFailureCode::RuntimeRegistration => "runtime_registration_failed"@,
        DeploymentFailureCode::RuntimePortPersistence => "runtime_port_persistence_failed"@,
        DeploymentFailureCode::DeploymentTransition => "deployment_transition_failed"@,
        DeploymentFailureCode::HealthCheck => "health_check_failed"@,
        DeploymentFailureCode::ExposurePreparation => "exposure_preparation_failed"@,
        DeploymentFailureCode::CaddyMaterialization => "caddy_materialization_failed"@,
        DeploymentFailureCode::ExternalHealthCheck => "external_health_check_failed"@,
        DeploymentFailureCode::CandidatePromotion => "candidate_promotion_failed"@,
        DeploymentFailureCode::OperationInterrupted => "operation_interrupted"@,
    }
}

impl DeploymentFailureCode {
    pub fn as_str(self) -> (r: &'static str)
        ensures
            r@ == failure_code_text(self),
    {
        match self {
            DeploymentFailureCode::TestGate => "test_gate_failed",
            DeploymentFailureCode::RuntimeReconciliation => "runtime_reconciliation_failed",
            DeploymentFailureCode::PublicConfigurationMissing => "public_configuration_missing",
            DeploymentFailureCode::RuntimePortAllocation => "runtime_port_allocation_failed",
            DeploymentFailureCode::RuntimeUnitCreation => "runtime_unit_creation_failed",
            DeploymentFailureCode::RuntimeUnitReload => "runtime_unit_reload_failed",
            DeploymentFailureCode::RuntimeStart => "runtime_start_failed",
            DeploymentFailureCode::RuntimeResolution => "runtime_resolution_failed",
            DeploymentFailureCode::RuntimeObservation => "runtime_observation_failed",
            DeploymentFailureCode::RuntimeRegistration => "runtime_registration_failed",
            DeploymentFailureCode::RuntimePortPersistence => "runtime_port_persistence_failed",
            DeploymentFailureCode::DeploymentTransition => "deployment_transition_failed",
            DeploymentFailureCode::HealthCheck => "health_check_failed",
            DeploymentFailureCode::ExposurePreparation => "exposure_preparation_failed",
            DeploymentFailureCode::CaddyMaterialization => "caddy_materialization_failed",
            DeploymentFailureCode::ExternalHealthCheck => "external_health_check_failed",
            DeploymentFailureCode::CandidatePromotion => "candidate_promotion_failed",
            DeploymentFailureCode::OperationInterrupted => "operation_interrupted",
        }
    }
}

/// History projection: a deployment with its artifact and active marker.
#[derive(Clone, Debug, PartialEq, Eq)]
pub struct DeploymentHistory {
    pub deployment: Deployment,
    pub release: Release,
    pub is_active: bool,
}

/// A recorded source revision: a full commit for new deployments, or historical text.
#[derive(Clone, Debug, PartialEq, Eq)]
pub enum SourceRevision {
    Commit(CommitSha),
    Legacy(String),
}

pub open spec fn source_revision_text(r: SourceRevision) -> Seq<char> {
    match r {
        SourceRevision::Commit(sha) => sha@,
        SourceRevision::Legacy(text) => text@,
    }
}

impl SourceRevision {
    /// New deployments always record a validated full commit.
    pub fn from_commit(commit: CommitSha) -> (r: Self)
        ensures
            r == SourceRevision::Commit(commit),
    {
        SourceRevision::Commit(commit)
    }

    pub fn as_str(&self) -> (r: &str)
        ensures
            r@ == source_revision_text(*self),
    {
        match self {
            SourceRevision::Commit(value) => value.as_str(),
            SourceRevision::Legacy(value) => value.as_str(),
        }
    }
}

/// A fresh deploy or a rollback to a prior release.
#[derive(Clone, Copy, Debug, PartialEq, Eq)]
pub enum DeploymentType {
    Deploy,
    Rollback,
}

/// The persisted status vocabulary used by the transition table.
#[derive(Clone, Copy, Debug, PartialEq, Eq)]
pub enum DeploymentStatus {
    Pending,
    Starting,
    Verifying,
    Activating,
    Succeeded,
    Failed,
}

pub open spec fn status_text(s: DeploymentStatus) -> Seq<char> {
    match s {
        DeploymentStatus::Pending => "pending"@,
        DeploymentStatus::Starting => "starting"@,
        DeploymentStatus::Verifying => "verifying"@,
        DeploymentStatus::Activating => "activating"@,
        DeploymentStatus::Succeeded => "succeeded"@,
        DeploymentStatus::Failed => "failed"@,
    }
}

/// One external fact or workflow decision that asks a Deployment to change state.
#[derive(Clone, Copy, Debug, PartialEq, Eq)]
pub enum DeploymentEvent {
    Start,
    RuntimeRunning,
    Verified,
    Activated,
    Fail,
}

pub open spec fn event_text(e: DeploymentEvent) -> Seq<char> {
    match e {
        DeploymentEvent::Start => "start"@,
        DeploymentEvent::RuntimeRunning => "runtime running"@,
        DeploymentEvent::Verified => "verified"@,
        DeploymentEvent::Activated => "activated"@,
        DeploymentEvent::Fail => "fail"@,
    }
}

impl DeploymentEvent {
    pub fn as_str(self) -> (r: &'static str)
        ensures
            r@ == event_text(self),
    {
        match self {
            DeploymentEvent::Start => "start",
            DeploymentEvent::RuntimeRunning => "runtime running",
            DeploymentEvent::Verified => "verified",
            DeploymentEvent::Activated => "activated",
            DeploymentEvent::Fail => "fail",
        }
    }
}

pub open spec fn is_terminal(s: DeploymentStatus) -> bool {
    s == DeploymentStatus::Succeeded || s == DeploymentStatus::Failed
}

/// The legal transition table: the next status for an event, or none when the
/// event has no edge from the current status.
pub open spec fn next_status(s: DeploymentStatus, e: DeploymentEvent) -> Option<DeploymentStatus> {
    match (s, e) {
        (DeploymentStatus::Pending, DeploymentEvent::Start) => Some(DeploymentStatus::Starting),
        (DeploymentStatus::Starting, DeploymentEvent::RuntimeRunning) => Some(
            DeploymentStatus::Verifying,
        ),
        (DeploymentStatus::Verifying, DeploymentEvent::Verified) => Some(
            DeploymentStatus::Activating,
        ),
        (DeploymentStatus::Verifying, DeploymentEvent::Activated) => Some(
            DeploymentStatus::Succeeded,
        ),
        (DeploymentStatus::Activating, DeploymentEvent::Activated) => Some(
            DeploymentStatus::Succeeded,
        ),
        (_, DeploymentEvent::Fail) => if !is_terminal(s) {
            Some(DeploymentStatus::Failed)
        } else {
            None
        },
        _ => None,
    }
}

impl DeploymentStatus {
    pub fn as_str(self) -> (r: &'static str)
        ensures
            r@ == status_text(self),
    {
        match self {
            DeploymentStatus::Pending => "pending",
            DeploymentStatus::Starting => "starting",
            DeploymentStatus::Verifying => "verifying",
            DeploymentStatus::Activating => "activating",
            DeploymentStatus::Succeeded => "succeeded",
            DeploymentStatus::Failed => "failed",
        }
    }

    /// Applies one event to the current status, or rejects the pair.
    pub fn transition(self, event: DeploymentEvent) -> (r: Result<
        DeploymentStatus,
        InvalidDeploymentTransition,
    >)
        ensures
            next_status(self, event) matches Some(n) ==> r == Ok::<
                DeploymentStatus,
                InvalidDeploymentTransition,
            >(n),
            next_status(self, event) is None ==> r == Err::<
                DeploymentStatus,
                InvalidDeploymentTransition,
            >(InvalidDeploymentTransition { current: self, event }),
    {
        match (self, event) {
            (DeploymentStatus::Pending, DeploymentEvent::Start) => Ok(DeploymentStatus::Starting),
            (DeploymentStatus::Starting, DeploymentEvent::RuntimeRunning) => Ok(
                DeploymentStatus::Verifying,
            ),
            (DeploymentStatus::Verifying, DeploymentEvent::Verified) => Ok(
                DeploymentStatus::Activating,
            ),
            (DeploymentStatus::Verifying, DeploymentEvent::Activated) => Ok(
                DeploymentStatus::Succeeded,
            ),
            (DeploymentStatus::Activating, DeploymentEvent::Activated) => Ok(
                DeploymentStatus::Succeeded,
            ),
            (status, DeploymentEvent::Fail) => {
                if status.can_fail() {
                    Ok(DeploymentStatus::Failed)
                } else {
                    Err(InvalidDeploymentTransition { current: self, event })
                }
            },
            _ => Err(InvalidDeploymentTransition { current: self, event }),
        }
    }

    pub fn is_terminal(self) -> (r: bool)
        ensures
            r == is_terminal(self),
    {
        matches!(self, DeploymentStatus::Succeeded | DeploymentStatus::Failed)
    }

    pub fn is_nonterminal(self) -> (r: bool)
        ensures
            r == !is_terminal(self),
    {
        !self.is_terminal()
    }

    /// Only a Deployment still performing activation work may record a terminal failure.
    pub fn can_fail(self) -> (r: bool)
        ensures
            r == !is_terminal(self),
    {
        self.is_nonterminal()
    }
}

/// An event that has no legal edge from the current status.
#[derive(Clone, Copy, Debug, PartialEq, Eq)]
pub struct InvalidDeploymentTransition {
    pub current: DeploymentStatus,
    pub event: DeploymentEvent,
}

impl InvalidDeploymentTransition {
    pub fn message(&self) -> (r: String)
        ensures
            r@ == "cannot apply deployment event `"@ + event_text(self.event) + "` while in state `"@
                + status_text(self.current) + "`"@,
    {
        let mut out = "cannot apply deployment event `".to_owned();
        push_str(&mut out, self.event.as_str());
        push_str(&mut out, "` while in state `");
        push_str(&mut out, self.current.as_str());
        push_str(&mut out, "`");
        out
    }
}

/// How far a status is along the activation path; terminal statuses are last.
pub open spec fn status_rank(s: DeploymentStatus) -> int {
    match s {
        DeploymentStatus::Pending => 0,
        DeploymentStatus::Starting => 1,
        DeploymentStatus::Verifying => 2,
        DeploymentStatus::Activating => 3,
        DeploymentStatus::Succeeded => 4,
        DeploymentStatus::Failed => 4,
    }
}

/// Applies events in order, stopping at the first rejected one.
pub open spec fn apply_events(s: DeploymentStatus, events: Seq<DeploymentEvent>) -> Option<DeploymentStatus>
    decreases events.len(),
{
    if events.len() == 0 {
        Some(s)
    } else {
        match next_status(s, events[0]) {
            Some(n) => apply_events(n, events.drop_first()),
            None => None,
        }
    }
}

/// A terminal Deployment accepts no event at all.
pub proof fn lemma_terminal_statuses_accept_no_event(s: DeploymentStatus, e: DeploymentEvent)
    requires
        is_terminal(s),
    ensures
        next_status(s, e) is None,
{
}

/// Every Deployment still performing activation work can be failed.
pub proof fn lemma_nonterminal_statuses_can_fail(s: DeploymentStatus)
    requires
        !is_terminal(s),
    ensures
        next_status(s, DeploymentEvent::Fail) == Some(DeploymentStatus::Failed),
{
}

/// Every accepted event moves a Deployment strictly forward, so no status repeats.
pub proof fn lemma_transitions_make_progress(s: DeploymentStatus, e: DeploymentEvent)
    requires
        next_status(s, e) is Some,
    ensures
        status_rank(next_status(s, e)->0) > status_rank(s),
{
}

/// A Deployment succeeds only out of verification or activation.
pub proof fn lemma_success_follows_verification(s: DeploymentStatus, e: DeploymentEvent)
    requires
        next_status(s, e) == Some(DeploymentStatus::Succeeded),
    ensures
        s == DeploymentStatus::Verifying || s == DeploymentStatus::Activating,
        e == DeploymentEvent::Activated,
{
}

/// Any accepted run of events from a status has at most as many events as steps
/// remain to a terminal status, so every Deployment's history is finite.
pub proof fn lemma_event_runs_are_bounded(s: DeploymentStatus, events: Seq<DeploymentEvent>)
    requires
        apply_events(s, events) is Some,
    ensures
        events.len() <= 4 - status_rank(s),
        events.len() == 4 - status_rank(s) ==> is_terminal(apply_events(s, events)->0),
    decreases events.len(),
{
    if events.len() > 0 {
        let n = next_status(s, events[0])->0;
        lemma_transitions_make_progress(s, events[0]);
        lemma_event_runs_are_bounded(n, events.drop_first());
    }
}

/// A candidate whose runtime, route, and deployment were atomically promoted.
#[derive(Clone, Debug, PartialEq, Eq)]
pub struct PromotedCandidate {
    pub runtime_id: RuntimeInstanceId,
    pub deployment_id: DeploymentId,
    pub finished_at: String,
}

/// Why a runtime cannot be promoted without changing state.
#[derive(Clone, Debug, PartialEq, Eq)]
pub enum PromotionCandidateRejection {
    NotStarting { actual: RuntimeState },
    NotRunning { actual: ObservedRuntimeState },
    Removed,
}

/// The persisted facts a promotion must validate before changing state.
#[derive(Clone, Debug, PartialEq, Eq)]
pub struct PromotionTarget {
    pub runtime_id: RuntimeInstanceId,
    pub application_id: ApplicationId,
    pub deployment_id: DeploymentId,
    pub endpoint: ExpectedRuntimeEndpoint,
    pub state: RuntimeState,
    pub observed_state: ObservedRuntimeState,
    pub retirement: Option<RuntimeRetirement>,
    pub deployment_status: DeploymentStatus,
    pub deployment_finished_at: Option<String>,
    pub visibility: Visibility,
    pub domain: Option<DomainName>,
}

impl PromotionTarget {
    /// The already-confirmed promotion, when the deployment has reached a terminal success.
    pub fn completed_promotion(&self) -> (r: Option<PromotedCandidate>)
        ensures
            r is Some <==> self.state == RuntimeState::Running && self.deployment_status
                == DeploymentStatus::Succeeded && self.deployment_finished_at is Some,
            r matches Some(p) ==> p.runtime_id@ == self.runtime_id@ && p.deployment_id@
                == self.deployment_id@ && p.finished_at@ == self.deployment_finished_at->0@,
    {
        if !matches!(self.state, RuntimeState::Running) || !matches!(
            self.deployment_status,
            DeploymentStatus::Succeeded
        ) {
            return None;
        }
        match &self.deployment_finished_at {
            Some(finished_at) => Some(
                PromotedCandidate {
                    runtime_id: self.runtime_id.duplicate(),
                    deployment_id: self.deployment_id.duplicate(),
                    finished_at: finished_at.clone(),
                },
            ),
            None => None,
        }
    }

    /// Rejects candidates that are not starting, not observed running, or removed.
    pub fn validate_promotion_candidate(&self) -> (r: Result<(), PromotionCandidateRejection>)
        ensures
            self.state != RuntimeState::Starting ==> r == Err::<(), PromotionCandidateRejection>(
                PromotionCandidateRejection::NotStarting { actual: self.state },
            ),
            self.state == RuntimeState::Starting && !(self.observed_state is Running) ==> (r matches Err(
                PromotionCandidateRejection::NotRunning { actual },
            ) && crate::domain::runtime::same_observed_state(actual, self.observed_state)),
            self.state == RuntimeState::Starting && self.observed_state is Running
                && self.retirement is Some ==> r == Err::<(), PromotionCandidateRejection>(
                PromotionCandidateRejection::Removed,
            ),
            r is Ok <==> self.state == RuntimeState::Starting && self.observed_state is Running
                && self.retirement is None,
    {
        if !matches!(self.state, RuntimeState::Starting) {
            return Err(PromotionCandidateRejection::NotStarting { actual: self.state });
        }
        if !matches!(self.observed_state, ObservedRuntimeState::Running) {
            return Err(PromotionCandidateRejection::NotRunning { actual: self.observed_state.duplicate() });
        }
        if self.retirement.is_some() {
            return Err(PromotionCandidateRejection::Removed);
        }
        Ok(())
    }
}

/// The most recent succeeded deployment that is no longer active, for rollback.
#[derive(Clone, Debug, PartialEq, Eq)]
pub struct RollbackTarget {
    pub release: Release,
    pub source_revision: Option<SourceRevision>,
}

} // verus!
