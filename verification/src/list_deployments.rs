//! Deployment history rows of one application, newest first.

use vstd::prelude::*;

use crate::create_deployment::DeploymentStatus;

verus! {

#[derive(Debug)]
pub struct DeploymentSummary {
    pub id: String,
    pub commit_sha: String,
    pub status: DeploymentStatus,
    pub requested_at: String,
    pub finished_at: Option<String>,
}

} // verus!
