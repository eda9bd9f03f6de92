//! Host diagnostic checks reported by the doctor command.

use vstd::prelude::*;

verus! {

/// The outcome of one diagnostic probe.
#[derive(Clone, Debug, PartialEq, Eq)]
pub enum CheckOutcome {
    Passed { detail: String },
    Failed { detail: String },
    Unavailable { detail: String },
}

/// One diagnostic check and what it found.
#[derive(Clone, Debug, PartialEq, Eq)]
pub enum DoctorCheck {
    DatabaseConnection(CheckOutcome),
    DatabaseSchema(CheckOutcome),
    WorkspaceDirectory { path: String, exists: bool },
    CaddyManagedDirectory { path: String, exists: bool },
    Caddyfile { path: String, exists: bool },
    CaddyConfiguration(CheckOutcome),
    Git(CheckOutcome),
    Podman(CheckOutcome),
    ActiveOciImage { image: String, outcome: CheckOutcome },
    ActiveOciImages(CheckOutcome),
    ActiveLocalImage,
    DiskSpace { path: String, outcome: CheckOutcome },
    PodmanRootless(CheckOutcome),
    PodmanQuadletUserGenerator { path: Option<String> },
    Caddy(CheckOutcome),
}

/// A check failed: its probe did not pass, or what it looks for is absent. A
/// skipped check never fails.
pub open spec fn check_failed(check: DoctorCheck) -> bool {
    match check {
        DoctorCheck::DatabaseConnection(o) | DoctorCheck::DatabaseSchema(o)
        | DoctorCheck::CaddyConfiguration(o) | DoctorCheck::Git(o) | DoctorCheck::Podman(o)
        | DoctorCheck::ActiveOciImages(o) | DoctorCheck::PodmanRootless(o) | DoctorCheck::Caddy(
            o,
        ) => !(o is Passed),
        DoctorCheck::ActiveOciImage { outcome, .. } | DoctorCheck::DiskSpace { outcome, .. } => !(
        outcome is Passed),
        DoctorCheck::WorkspaceDirectory { exists, .. }
        | DoctorCheck::CaddyManagedDirectory { exists, .. }
        | DoctorCheck::Caddyfile { exists, .. } => !exists,
        DoctorCheck::ActiveLocalImage => false,
        DoctorCheck::PodmanQuadletUserGenerator { path } => path is None,
    }
}

impl DoctorCheck {
    pub fn failed(&self) -> (r: bool)
        ensures
            r == check_failed(*self),
    {
        match self {
            DoctorCheck::DatabaseConnection(o) | DoctorCheck::DatabaseSchema(o)
            | DoctorCheck::CaddyConfiguration(o) | DoctorCheck::Git(o) | DoctorCheck::Podman(o)
            | DoctorCheck::ActiveOciImages(o) | DoctorCheck::PodmanRootless(o)
            | DoctorCheck::Caddy(o) => !matches!(o, CheckOutcome::Passed { .. }),
            DoctorCheck::ActiveOciImage { outcome, .. } | DoctorCheck::DiskSpace { outcome, .. } => {
                !matches!(outcome, CheckOutcome::Passed { .. })
            },
            DoctorCheck::WorkspaceDirectory { exists, .. }
            | DoctorCheck::CaddyManagedDirectory { exists, .. }
            | DoctorCheck::Caddyfile { exists, .. } => !*exists,
            DoctorCheck::ActiveLocalImage => false,
            DoctorCheck::PodmanQuadletUserGenerator { path } => path.is_none(),
        }
    }
}

/// Every check the doctor command ran, in order.
#[derive(Clone, Debug, PartialEq, Eq)]
pub struct DoctorReport {
    pub checks: Vec<DoctorCheck>,
}

impl DoctorReport {
    /// Healthy when no check failed.
    pub fn is_healthy(&self) -> (r: bool)
        ensures
            r == forall|i: int| 0 <= i < self.checks@.len() ==> !check_failed(#[trigger] self.checks@[i]),
    {
        let mut i: usize = 0;
        while i < self.checks.len()
            invariant
                i <= self.checks@.len(),
                forall|k: int| 0 <= k < i ==> !check_failed(#[trigger] self.checks@[k]),
            decreases self.checks@.len() - i,
        {
            if self.checks[i].failed() {
                return false;
            }
            i = i + 1;
        }
        true
    }
}

} // verus!
