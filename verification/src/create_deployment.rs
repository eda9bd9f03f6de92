//! Recording a new deployment of an application's revision: the persisted status
//! vocabulary, the commit identifier rule, and the admission decision made against
//! the catalog before anything is written.

use vstd::prelude::*;

use crate::text::{chars_of, is_ascii_hexdigit, push_str, str_eq};

verus! {

#[derive(Debug, PartialEq, Eq)]
pub struct Revision {
    pub id: String,
    pub application_id: String,
    pub commit_sha: String,
    pub source_reference: Option<String>,
    pub discovered_at: String,
}

#[derive(Debug, PartialEq, Eq)]
pub struct Deployment {
    pub id: String,
    pub application_id: String,
    pub revision_id: String,
    pub status: DeploymentStatus,
    pub requested_at: String,
}

#[derive(Clone, Copy, Debug, PartialEq, Eq)]
pub enum DeploymentStatus {
    Pending,
    PreparingSource,
    Building,
    Starting,
    VerifyingInternal,
    Succeeded,
    Failed,
}

/// The stored spelling of each status.
pub open spec fn status_value(status: DeploymentStatus) -> Seq<char> {
    match status {
        DeploymentStatus::Pending => "pending"@,
        DeploymentStatus::PreparingSource => "preparing_source"@,
        DeploymentStatus::Building => "building"@,
        DeploymentStatus::Starting => "starting"@,
        DeploymentStatus::VerifyingInternal => "verifying_internal"@,
        DeploymentStatus::Succeeded => "succeeded"@,
        DeploymentStatus::Failed => "failed"@,
    }
}

/// The status a stored spelling names, if any.
pub open spec fn status_of_value(value: Seq<char>) -> Option<DeploymentStatus> {
    if value == "pending"@ {
        Some(DeploymentStatus::Pending)
    } else if value == "preparing_source"@ {
        Some(DeploymentStatus::PreparingSource)
    } else if value == "building"@ {
        Some(DeploymentStatus::Building)
    } else if value == "starting"@ {
        Some(DeploymentStatus::Starting)
    } else if value == "verifying_internal"@ {
        Some(DeploymentStatus::VerifyingInternal)
    } else if value == "succeeded"@ {
        Some(DeploymentStatus::Succeeded)
    } else if value == "failed"@ {
        Some(DeploymentStatus::Failed)
    } else {
        None
    }
}

impl DeploymentStatus {
    pub fn database_value(self) -> (r: &'static str)
        ensures
            r@ == status_value(self),
    {
        match self {
            DeploymentStatus::Pending => "pending",
            DeploymentStatus::PreparingSource => "preparing_source",
            DeploymentStatus::Building => "building",
            DeploymentStatus::Starting => "starting",
            DeploymentStatus::VerifyingInternal => "verifying_internal",
            DeploymentStatus::Succeeded => "succeeded",
            DeploymentStatus::Failed => "failed",
        }
    }

    pub fn from_database(value: &str) -> (r: Option<Self>)
        ensures
            r == status_of_value(value@),
    {
        if str_eq(value, "pending") {
            Some(DeploymentStatus::Pending)
        } else if str_eq(value, "preparing_source") {
            Some(DeploymentStatus::PreparingSource)
        } else if str_eq(value, "building") {
            Some(DeploymentStatus::Building)
        } else if str_eq(value, "starting") {
            Some(DeploymentStatus::Starting)
        } else if str_eq(value, "verifying_internal") {
            Some(DeploymentStatus::VerifyingInternal)
        } else if str_eq(value, "succeeded") {
            Some(DeploymentStatus::Succeeded)
        } else if str_eq(value, "failed") {
            Some(DeploymentStatus::Failed)
        } else {
            None
        }
    }
}

/// Reading back a stored status gives the status that was stored.
pub proof fn lemma_status_round_trip(status: DeploymentStatus)
    ensures
        status_of_value(status_value(status)) == Some(status),
{
    reveal_strlit("pending");
    reveal_strlit("preparing_source");
    reveal_strlit("building");
    reveal_strlit("starting");
    reveal_strlit("verifying_internal");
    reveal_strlit("succeeded");
    reveal_strlit("failed");
    assert("pending"@[0] == 'p' && "pending"@[1] == 'e');
    assert("preparing_source"@[0] == 'p' && "preparing_source"@[1] == 'r');
    assert("building"@[0] == 'b');
    assert("starting"@[1] == 't' && "starting"@[0] == 's');
    assert("succeeded"@[1] == 'u' && "succeeded"@[0] == 's');
    assert("verifying_internal"@[0] == 'v');
    assert("failed"@[0] == 'f');
}

#[derive(Debug)]
pub enum CreateDeploymentError {
    InvalidCommit,
    ApplicationNotFound { application_id: String },
    ActiveDeployment { application_id: String },
    Persistence { message: String },
}

impl CreateDeploymentError {
    pub fn message(&self) -> (r: String)
        ensures
            r@ == match *self {
                CreateDeploymentError::InvalidCommit =>
                    "commit identifier must be a complete 40- or 64-character hexadecimal value"@,
                CreateDeploymentError::ApplicationNotFound { application_id } => "application `"@
                    + application_id@ + "` was not found"@,
                CreateDeploymentError::ActiveDeployment { application_id } => "application `"@
                    + application_id@ + "` already has an active deployment"@,
                CreateDeploymentError::Persistence { message } => "failed to create deployment: "@
                    + message@,
            },
    {
        match self {
            CreateDeploymentError::InvalidCommit => {
                "commit identifier must be a complete 40- or 64-character hexadecimal value".to_owned()
            },
            CreateDeploymentError::ApplicationNotFound { application_id } => {
                let mut out = "application `".to_owned();
                push_str(&mut out, application_id.as_str());
                push_str(&mut out, "` was not found");
                out
            },
            CreateDeploymentError::ActiveDeployment { application_id } => {
                let mut out = "application `".to_owned();
                push_str(&mut out, application_id.as_str());
                push_str(&mut out, "` already has an active deployment");
                out
            },
            CreateDeploymentError::Persistence { message } => {
                let mut out = "failed to create deployment: ".to_owned();
                push_str(&mut out, message.as_str());
                out
            },
        }
    }
}

/// A complete commit identifier: 40 (SHA-1) or 64 (SHA-256) hexadecimal characters.
pub open spec fn complete_commit(s: Seq<char>) -> bool {
    (s.len() == 40 || s.len() == 64) && forall|i: int| 0 <= i < s.len() ==> is_ascii_hexdigit(#[trigger] s[i])
}

pub fn is_complete_commit(commit_sha: &str) -> (r: bool)
    ensures
        r == complete_commit(commit_sha@),
{
    let v = chars_of(commit_sha);
    if v.len() != 40 && v.len() != 64 {
        return false;
    }
    let mut i: usize = 0;
    while i < v.len()
        invariant
            i <= v@.len(),
            v@ == commit_sha@,
            forall|k: int| 0 <= k < i ==> is_ascii_hexdigit(#[trigger] v@[k]),
        decreases v@.len() - i,
    {
        if !crate::text::char_is_ascii_hexdigit(v[i]) {
            return false;
        }
        i = i + 1;
    }
    true
}

/// Whether a new deployment may be recorded: the commit must be complete, the
/// application must exist, and no deployment of it may still be in progress.
pub fn admit_deployment(
    application_id: &str,
    commit_sha: &str,
    application_exists: bool,
    active_deployment_exists: bool,
) -> (r: Result<(), CreateDeploymentError>)
    ensures
        !complete_commit(commit_sha@) ==> r matches Err(CreateDeploymentError::InvalidCommit),
        complete_commit(commit_sha@) && !application_exists ==> (r matches Err(
            CreateDeploymentError::ApplicationNotFound { application_id: id },
        ) && id@ == application_id@),
        complete_commit(commit_sha@) && application_exists && active_deployment_exists ==> (r matches Err(
            CreateDeploymentError::ActiveDeployment { application_id: id },
        ) && id@ == application_id@),
        r is Ok <==> complete_commit(commit_sha@) && application_exists && !active_deployment_exists,
{
    if !is_complete_commit(commit_sha) {
        return Err(CreateDeploymentError::InvalidCommit);
    }
    if !application_exists {
        return Err(
            CreateDeploymentError::ApplicationNotFound { application_id: application_id.to_owned() },
        );
    }
    if active_deployment_exists {
        return Err(
            CreateDeploymentError::ActiveDeployment { application_id: application_id.to_owned() },
        );
    }
    Ok(())
}

} // verus!
