//! Promoting a healthy internal candidate runtime: what was already promoted, and
//! which persisted facts must hold before a candidate may be promoted.

use vstd::prelude::*;

use crate::domain::runtime::SocketAddress;
use crate::text::{push_str, str_eq};

verus! {

#[derive(Debug, PartialEq, Eq)]
pub struct PromotedCandidate {
    pub runtime_id: String,
    pub deployment_id: String,
    pub finished_at: String,
}

/// Promotion failures; causes from outside the library carry their text.
#[derive(Debug)]
pub enum PromoteInternalCandidateError {
    RuntimeNotFound { runtime_id: String },
    InvalidRuntimeRole { runtime_id: String, actual: String },
    RuntimeNotRunning { runtime_id: String, actual: String },
    RuntimeRemoved { runtime_id: String },
    InvalidDeploymentState { deployment_id: String, actual: String },
    PublicApplication { application_id: String },
    HealthCheck { message: String },
    CandidateUnhealthy { result: String },
    RecordFailure { message: String },
    Persistence { message: String },
}

/// The persisted facts a promotion validates before changing state.
#[derive(Debug)]
pub struct PromotionTarget {
    pub runtime_id: String,
    pub application_id: String,
    pub deployment_id: String,
    pub endpoint: SocketAddress,
    pub role: String,
    pub observed_state: String,
    pub removed_at: Option<String>,
    pub deployment_status: String,
    pub deployment_finished_at: Option<String>,
    pub visibility: String,
}

/// The promotion already confirmed for a current runtime whose deployment succeeded.
pub fn completed_promotion(target: &PromotionTarget) -> (r: Option<PromotedCandidate>)
    ensures
        (target.role@ == "current"@ && target.deployment_status@ == "succeeded"@
            && target.deployment_finished_at is Some) <==> r is Some,
        r matches Some(p) ==> p.runtime_id@ == target.runtime_id@ && p.deployment_id@
            == target.deployment_id@ && (target.deployment_finished_at matches Some(f)
            && p.finished_at@ == f@),
{
    if !str_eq(target.role.as_str(), "current") || !str_eq(
        target.deployment_status.as_str(),
        "succeeded",
    ) {
        return None;
    }
    match &target.deployment_finished_at {
        Some(finished_at) => Some(
            PromotedCandidate {
                runtime_id: target.runtime_id.clone(),
                deployment_id: target.deployment_id.clone(),
                finished_at: finished_at.clone(),
            },
        ),
        None => None,
    }
}

/// Only a running, unremoved candidate of a deployment verifying internally, for an
/// internal application, may be promoted; the first failed rule is reported.
pub fn validate_target(target: &PromotionTarget) -> (r: Result<(), PromoteInternalCandidateError>)
    ensures
        target.role@ != "candidate"@ ==> (r matches Err(
            PromoteInternalCandidateError::InvalidRuntimeRole { runtime_id, actual },
        ) && runtime_id@ == target.runtime_id@ && actual@ == target.role@),
        target.role@ == "candidate"@ && target.observed_state@ != "running"@ ==> (r matches Err(
            PromoteInternalCandidateError::RuntimeNotRunning { runtime_id, actual },
        ) && runtime_id@ == target.runtime_id@ && actual@ == target.observed_state@),
        target.role@ == "candidate"@ && target.observed_state@ == "running"@ && target.removed_at is Some
            ==> (r matches Err(PromoteInternalCandidateError::RuntimeRemoved { runtime_id })
            && runtime_id@ == target.runtime_id@),
        target.role@ == "candidate"@ && target.observed_state@ == "running"@ && target.removed_at is None
            && target.deployment_status@ != "verifying_internal"@ ==> (r matches Err(
            PromoteInternalCandidateError::InvalidDeploymentState { deployment_id, actual },
        ) && deployment_id@ == target.deployment_id@ && actual@ == target.deployment_status@),
        target.role@ == "candidate"@ && target.observed_state@ == "running"@ && target.removed_at is None
            && target.deployment_status@ == "verifying_internal"@ && target.visibility@ != "internal"@
            ==> (r matches Err(PromoteInternalCandidateError::PublicApplication { application_id })
            && application_id@ == target.application_id@),
        r is Ok <==> (target.role@ == "candidate"@ && target.observed_state@ == "running"@
            && target.removed_at is None && target.deployment_status@ == "verifying_internal"@
            && target.visibility@ == "internal"@),
{
    if !str_eq(target.role.as_str(), "candidate") {
        return Err(
            PromoteInternalCandidateError::InvalidRuntimeRole {
                runtime_id: target.runtime_id.clone(),
                actual: target.role.clone(),
            },
        );
    }
    if !str_eq(target.observed_state.as_str(), "running") {
        return Err(
            PromoteInternalCandidateError::RuntimeNotRunning {
                runtime_id: target.runtime_id.clone(),
                actual: target.observed_state.clone(),
            },
        );
    }
    if target.removed_at.is_some() {
        return Err(
            PromoteInternalCandidateError::RuntimeRemoved { runtime_id: target.runtime_id.clone() },
        );
    }
    if !str_eq(target.deployment_status.as_str(), "verifying_internal") {
        return Err(
            PromoteInternalCandidateError::InvalidDeploymentState {
                deployment_id: target.deployment_id.clone(),
                actual: target.deployment_status.clone(),
            },
        );
    }
    if !str_eq(target.visibility.as_str(), "internal") {
        return Err(
            PromoteInternalCandidateError::PublicApplication {
                application_id: target.application_id.clone(),
            },
        );
    }
    Ok(())
}

fn quoted(prefix: &str, subject: &str, suffix: &str) -> (r: String)
    ensures
        r@ == prefix@ + subject@ + suffix@,
{
    let mut out = prefix.to_owned();
    push_str(&mut out, subject);
    push_str(&mut out, suffix);
    out
}

impl PromoteInternalCandidateError {
    pub fn message(&self) -> (r: String)
        ensures
            r@ == match *self {
                PromoteInternalCandidateError::RuntimeNotFound { runtime_id } => "runtime `"@
                    + runtime_id@ + "` was not found"@,
                PromoteInternalCandidateError::InvalidRuntimeRole { runtime_id, actual } =>
                    "runtime `"@ + runtime_id@ + "` must be Candidate to be promoted, but is `"@
                    + actual@ + "`"@,
                PromoteInternalCandidateError::RuntimeNotRunning { runtime_id, actual } =>
                    "runtime `"@ + runtime_id@ + "` must be Running to be promoted, but is `"@
                    + actual@ + "`"@,
                PromoteInternalCandidateError::RuntimeRemoved { runtime_id } => "runtime `"@
                    + runtime_id@ + "` has already been removed"@,
                PromoteInternalCandidateError::InvalidDeploymentState { deployment_id, actual } =>
                    "deployment `"@ + deployment_id@
                    + "` must be VerifyingInternal to promote its candidate, but is `"@ + actual@
                    + "`"@,
                PromoteInternalCandidateError::PublicApplication { application_id } =>
                    "application `"@ + application_id@
                    + "` requires public route activation before promotion"@,
                PromoteInternalCandidateError::HealthCheck { message } => message@,
                PromoteInternalCandidateError::CandidateUnhealthy { result } =>
                    "candidate failed its internal health check: "@ + result@,
                PromoteInternalCandidateError::RecordFailure { message } =>
                    "failed to record candidate health failure: "@ + message@,
                PromoteInternalCandidateError::Persistence { message } =>
                    "failed to promote internal candidate: "@ + message@,
            },
    {
        match self {
            PromoteInternalCandidateError::RuntimeNotFound { runtime_id } => quoted(
                "runtime `",
                runtime_id.as_str(),
                "` was not found",
            ),
            PromoteInternalCandidateError::InvalidRuntimeRole { runtime_id, actual } => {
                let mut out = quoted(
                    "runtime `",
                    runtime_id.as_str(),
                    "` must be Candidate to be promoted, but is `",
                );
                push_str(&mut out, actual.as_str());
                push_str(&mut out, "`");
                out
            },
            PromoteInternalCandidateError::RuntimeNotRunning { runtime_id, actual } => {
                let mut out = quoted(
                    "runtime `",
                    runtime_id.as_str(),
                    "` must be Running to be promoted, but is `",
                );
                push_str(&mut out, actual.as_str());
                push_str(&mut out, "`");
                out
            },
            PromoteInternalCandidateError::RuntimeRemoved { runtime_id } => quoted(
                "runtime `",
                runtime_id.as_str(),
                "` has already been removed",
            ),
            PromoteInternalCandidateError::InvalidDeploymentState { deployment_id, actual } => {
                let mut out = quoted(
                    "deployment `",
                    deployment_id.as_str(),
                    "` must be VerifyingInternal to promote its candidate, but is `",
                );
                push_str(&mut out, actual.as_str());
                push_str(&mut out, "`");
                out
            },
            PromoteInternalCandidateError::PublicApplication { application_id } => quoted(
                "application `",
                application_id.as_str(),
                "` requires public route activation before promotion",
            ),
            PromoteInternalCandidateError::HealthCheck { message } => message.clone(),
            PromoteInternalCandidateError::CandidateUnhealthy { result } => {
                let mut out = "candidate failed its internal health check: ".to_owned();
                push_str(&mut out, result.as_str());
                out
            },
            PromoteInternalCandidateError::RecordFailure { message } => {
                let mut out = "failed to record candidate health failure: ".to_owned();
                push_str(&mut out, message.as_str());
                out
            },
            PromoteInternalCandidateError::Persistence { message } => {
                let mut out = "failed to promote internal candidate: ".to_owned();
                push_str(&mut out, message.as_str());
                out
            },
        }
    }
}

} // verus!
