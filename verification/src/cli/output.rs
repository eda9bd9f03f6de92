//! Renders command results as presentation strings so handlers stay
//! orchestration-only.

use vstd::prelude::*;

use crate::control::diagnostics::{CheckOutcome, DoctorCheck, DoctorReport};
use crate::control::outcome::{
    ApplicationCatalogEntry, DeploymentResult, ExposureChange, ReconciliationResult,
    RuntimeObservation, SystemDetails,
};
use crate::domain::application::{ApplicationName, ApplicationSummary, DesiredRuntimeState};
use crate::domain::deployment::{
    lifecycle_status, source_revision_text, status_text, DeploymentFailureEvidence,
    DeploymentHistory, DeploymentLifecycle, DeploymentStatus, DeploymentType,
};
use crate::domain::exposure::Visibility;
use crate::domain::runtime::ObservedRuntimeState;
use crate::domain::system::System;
use crate::text::{debug_string, debug_text, join_lines, join_with_newlines, push_str, strings_view};

verus! {

pub open spec fn desired_state_label(state: DesiredRuntimeState) -> Seq<char> {
    match state {
        DesiredRuntimeState::Running => "Running"@,
        DesiredRuntimeState::Stopped => "Stopped"@,
    }
}

/// Known observed states by name; an unknown state keeps its structured debug form.
pub open spec fn observed_state_label(state: ObservedRuntimeState) -> Seq<char> {
    match state {
        ObservedRuntimeState::Missing => "Missing"@,
        ObservedRuntimeState::Created => "Created"@,
        ObservedRuntimeState::Starting => "Starting"@,
        ObservedRuntimeState::Running => "Running"@,
        ObservedRuntimeState::Stopping => "Stopping"@,
        ObservedRuntimeState::Stopped => "Stopped"@,
        ObservedRuntimeState::Failed => "Failed"@,
        ObservedRuntimeState::Unknown { status } => "Unknown { status: "@ + debug_string(status@)
            + " }"@,
    }
}

pub open spec fn deployment_type_text(deployment_type: DeploymentType) -> Seq<char> {
    match deployment_type {
        DeploymentType::Deploy => "Deploy"@,
        DeploymentType::Rollback => "Rollback"@,
    }
}

pub open spec fn deployment_status_text(status: DeploymentStatus) -> Seq<char> {
    match status {
        DeploymentStatus::Pending => "Pending"@,
        DeploymentStatus::Starting => "Starting"@,
        DeploymentStatus::Verifying => "Verifying"@,
        DeploymentStatus::Activating => "Activating"@,
        DeploymentStatus::Succeeded => "Succeeded"@,
        DeploymentStatus::Failed => "Failed"@,
    }
}

pub open spec fn visibility_text(visibility: Visibility) -> Seq<char> {
    match visibility {
        Visibility::Public => "Public"@,
        Visibility::Internal => "Internal"@,
    }
}

pub fn desired_runtime_state_label(state: DesiredRuntimeState) -> (r: &'static str)
    ensures
        r@ == desired_state_label(state),
{
    match state {
        DesiredRuntimeState::Running => "Running",
        DesiredRuntimeState::Stopped => "Stopped",
    }
}

pub fn observed_runtime_state_label(state: &ObservedRuntimeState) -> (r: String)
    ensures
        r@ == observed_state_label(*state),
{
    match state {
        ObservedRuntimeState::Missing => "Missing".to_owned(),
        ObservedRuntimeState::Created => "Created".to_owned(),
        ObservedRuntimeState::Starting => "Starting".to_owned(),
        ObservedRuntimeState::Running => "Running".to_owned(),
        ObservedRuntimeState::Stopping => "Stopping".to_owned(),
        ObservedRuntimeState::Stopped => "Stopped".to_owned(),
        ObservedRuntimeState::Failed => "Failed".to_owned(),
        ObservedRuntimeState::Unknown { status } => {
            let mut out = "Unknown { status: ".to_owned();
            let quoted = debug_text(status.as_str());
            push_str(&mut out, quoted.as_str());
            push_str(&mut out, " }");
            out
        },
    }
}

pub fn deployment_type_label(deployment_type: DeploymentType) -> (r: &'static str)
    ensures
        r@ == deployment_type_text(deployment_type),
{
    match deployment_type {
        DeploymentType::Deploy => "Deploy",
        DeploymentType::Rollback => "Rollback",
    }
}

pub fn deployment_status_label(status: DeploymentStatus) -> (r: &'static str)
    ensures
        r@ == deployment_status_text(status),
{
    match status {
        DeploymentStatus::Pending => "Pending",
        DeploymentStatus::Starting => "Starting",
        DeploymentStatus::Verifying => "Verifying",
        DeploymentStatus::Activating => "Activating",
        DeploymentStatus::Succeeded => "Succeeded",
        DeploymentStatus::Failed => "Failed",
    }
}

pub fn visibility_label(visibility: Visibility) -> (r: &'static str)
    ensures
        r@ == visibility_text(visibility),
{
    match visibility {
        Visibility::Public => "Public",
        Visibility::Internal => "Internal",
    }
}

pub open spec fn imported_application_text(application: ApplicationSummary) -> Seq<char> {
    "Imported "@ + application.name@ + "\nStatus: Registered"@ + match application.active_deployment_id {
        Some(id) => "\nDeployment: "@ + id@,
        None => "\nDeployment: Not deployed"@,
    }
}

pub fn imported_application(application: &ApplicationSummary) -> (r: String)
    ensures
        r@ == imported_application_text(*application),
{
    let mut output = "Imported ".to_owned();
    push_str(&mut output, application.name.as_str());
    push_str(&mut output, "\nStatus: Registered");
    match &application.active_deployment_id {
        Some(deployment_id) => {
            push_str(&mut output, "\nDeployment: ");
            push_str(&mut output, deployment_id.as_str());
        },
        None => {
            push_str(&mut output, "\nDeployment: Not deployed");
        },
    }
    output
}

pub open spec fn catalog_row(entry: ApplicationCatalogEntry) -> Seq<char> {
    entry.summary.name@ + "\tRegistered\t"@ + if entry.deployed {
        "Deployed"@
    } else {
        "Not deployed"@
    }
}

/// One row per application, joined by newlines.
pub open spec fn application_list_text(entries: Seq<ApplicationCatalogEntry>) -> Seq<char> {
    join_lines(Seq::new(entries.len(), |i: int| catalog_row(entries[i])))
}

pub fn application_list(entries: &[ApplicationCatalogEntry]) -> (r: String)
    ensures
        r@ == application_list_text(entries@),
{
    let mut rows: Vec<String> = Vec::new();
    let mut i: usize = 0;
    while i < entries.len()
        invariant
            i <= entries@.len(),
            rows@.len() == i,
            forall|k: int| 0 <= k < i ==> (#[trigger] rows@[k])@ == catalog_row(entries@[k]),
        decreases entries@.len() - i,
    {
        let entry = &entries[i];
        let mut row = entry.summary.name.as_str().to_owned();
        push_str(&mut row, "\tRegistered\t");
        if entry.deployed {
            push_str(&mut row, "Deployed");
        } else {
            push_str(&mut row, "Not deployed");
        }
        rows.push(row);
        i = i + 1;
    }
    assert(strings_view(rows@) =~= Seq::new(entries@.len(), |i: int| catalog_row(entries@[i])));
    join_with_newlines(&rows)
}

pub open spec fn lifecycle_outcome_text(observation: RuntimeObservation) -> Seq<char> {
    "Desired state: "@ + desired_state_label(observation.desired_runtime_state)
        + "\nObserved state: "@ + observed_state_label(observation.observed_runtime_state)
}

pub open spec fn runtime_status_text(observation: RuntimeObservation) -> Seq<char> {
    lifecycle_outcome_text(observation) + "\nRuntime: "@ + observation.runtime_id@ + "\nContainer: "@
        + observation.container_id@
}

pub fn runtime_status(observation: &RuntimeObservation) -> (r: String)
    ensures
        r@ == runtime_status_text(*observation),
{
    let mut output = lifecycle_outcome(observation);
    push_str(&mut output, "\nRuntime: ");
    push_str(&mut output, observation.runtime_id.as_str());
    push_str(&mut output, "\nContainer: ");
    push_str(&mut output, observation.container_id.as_str());
    output
}

pub open spec fn application_status_text(application_name: Seq<char>, observation: RuntimeObservation) -> Seq<char> {
    "Application: "@ + application_name + "\n"@ + runtime_status_text(observation)
}

pub fn application_status(application_name: &ApplicationName, observation: &RuntimeObservation) -> (r:
    String)
    ensures
        r@ == application_status_text(application_name@, *observation),
{
    let mut output = "Application: ".to_owned();
    push_str(&mut output, application_name.as_str());
    push_str(&mut output, "\n");
    let status = runtime_status(observation);
    push_str(&mut output, status.as_str());
    output
}

pub open spec fn application_stopped_text(application_name: Seq<char>, observation: RuntimeObservation) -> Seq<char> {
    "Stopped "@ + application_name + "\n"@ + lifecycle_outcome_text(observation)
}

pub fn application_stopped(application_name: &ApplicationName, observation: &RuntimeObservation) -> (r:
    String)
    ensures
        r@ == application_stopped_text(application_name@, *observation),
{
    let mut output = "Stopped ".to_owned();
    push_str(&mut output, application_name.as_str());
    push_str(&mut output, "\n");
    let outcome = lifecycle_outcome(observation);
    push_str(&mut output, outcome.as_str());
    output
}

pub open spec fn application_started_text(application_name: Seq<char>, observation: RuntimeObservation) -> Seq<char> {
    "Started "@ + application_name + "\n"@ + lifecycle_outcome_text(observation)
}

pub fn application_started(application_name: &ApplicationName, observation: &RuntimeObservation) -> (r:
    String)
    ensures
        r@ == application_started_text(application_name@, *observation),
{
    let mut output = "Started ".to_owned();
    push_str(&mut output, application_name.as_str());
    push_str(&mut output, "\n");
    let outcome = lifecycle_outcome(observation);
    push_str(&mut output, outcome.as_str());
    output
}

pub fn lifecycle_outcome(observation: &RuntimeObservation) -> (r: String)
    ensures
        r@ == lifecycle_outcome_text(*observation),
{
    let mut output = "Desired state: ".to_owned();
    push_str(&mut output, desired_runtime_state_label(observation.desired_runtime_state));
    push_str(&mut output, "\nObserved state: ");
    let observed = observed_runtime_state_label(&observation.observed_runtime_state);
    push_str(&mut output, observed.as_str());
    output
}

/// When a deployment finished and how it failed, for one history row. Failed rows
/// persisted before complete diagnostics carry neither.
pub open spec fn finish_and_failure(lifecycle: DeploymentLifecycle) -> (Seq<char>, Seq<char>) {
    match lifecycle {
        DeploymentLifecycle::Succeeded { finished_at } => (finished_at@, "-"@),
        DeploymentLifecycle::Failed { evidence } => match evidence {
            DeploymentFailureEvidence::Complete(failure) => (
                failure.finished_at@,
                failure.code@ + ":"@ + status_text(failure.stage) + ":"@ + failure.message@,
            ),
            DeploymentFailureEvidence::Incomplete => ("-"@, "-"@),
        },
        _ => ("-"@, "-"@),
    }
}

pub open spec fn history_row(history: DeploymentHistory) -> Seq<char> {
    let deployment = history.deployment;
    let tab = "\t"@;
    deployment.id@ + tab + deployment_type_text(deployment.deployment_type) + tab
        + history.release.artifact.digest_view() + tab + match deployment.source_revision {
        Some(revision) => source_revision_text(revision),
        None => "-"@,
    } + tab + deployment_status_text(lifecycle_status(deployment.lifecycle)) + tab
        + match deployment.started_at {
        Some(started) => started@,
        None => "-"@,
    } + tab + finish_and_failure(deployment.lifecycle).0 + tab + if history.is_active {
        "yes"@
    } else {
        "no"@
    } + tab + finish_and_failure(deployment.lifecycle).1
}

pub open spec fn history_header() -> Seq<char> {
    "DEPLOYMENT\tTYPE\tRELEASE\tSOURCE\tSTATUS\tSTARTED\tFINISHED\tACTIVE\tFAILURE\n"@
}

pub open spec fn deployment_history_text(application_name: Seq<char>, deployments: Seq<DeploymentHistory>) -> Seq<
    char,
> {
    if deployments.len() == 0 {
        "No deployments for "@ + application_name
    } else {
        "Deployments for "@ + application_name + ":\n"@ + history_header() + join_lines(
            Seq::new(deployments.len(), |i: int| history_row(deployments[i])),
        )
    }
}

fn history_row_text(history: &DeploymentHistory) -> (r: String)
    ensures
        r@ == history_row(*history),
{
    let deployment = &history.deployment;
    let mut row = deployment.id.as_str().to_owned();
    push_str(&mut row, "\t");
    push_str(&mut row, deployment_type_label(deployment.deployment_type));
    push_str(&mut row, "\t");
    push_str(&mut row, history.release.artifact.digest());
    push_str(&mut row, "\t");
    match &deployment.source_revision {
        Some(revision) => push_str(&mut row, revision.as_str()),
        None => push_str(&mut row, "-"),
    }
    push_str(&mut row, "\t");
    push_str(&mut row, deployment_status_label(deployment.status()));
    push_str(&mut row, "\t");
    match &deployment.started_at {
        Some(started) => push_str(&mut row, started.as_str()),
        None => push_str(&mut row, "-"),
    }
    push_str(&mut row, "\t");
    let mut failure = "-".to_owned();
    match &deployment.lifecycle {
        DeploymentLifecycle::Succeeded { finished_at } => push_str(&mut row, finished_at.as_str()),
        DeploymentLifecycle::Failed { evidence } => match evidence {
            DeploymentFailureEvidence::Complete(detail) => {
                push_str(&mut row, detail.finished_at.as_str());
                failure = detail.code.clone();
                push_str(&mut failure, ":");
                push_str(&mut failure, detail.stage.as_str());
                push_str(&mut failure, ":");
                push_str(&mut failure, detail.message.as_str());
            },
            DeploymentFailureEvidence::Incomplete => push_str(&mut row, "-"),
        },
        _ => push_str(&mut row, "-"),
    }
    push_str(&mut row, "\t");
    push_str(&mut row, if history.is_active { "yes" } else { "no" });
    push_str(&mut row, "\t");
    push_str(&mut row, failure.as_str());
    row
}

/// A tab-separated history table under a heading, or a note that there is none.
pub fn deployment_history(application_name: &ApplicationName, deployments: &[DeploymentHistory]) -> (r:
    String)
    ensures
        r@ == deployment_history_text(application_name@, deployments@),
{
    if deployments.len() == 0 {
        let mut output = "No deployments for ".to_owned();
        push_str(&mut output, application_name.as_str());
        return output;
    }
    let mut output = "Deployments for ".to_owned();
    push_str(&mut output, application_name.as_str());
    push_str(&mut output, ":\n");
    push_str(&mut output, "DEPLOYMENT\tTYPE\tRELEASE\tSOURCE\tSTATUS\tSTARTED\tFINISHED\tACTIVE\tFAILURE\n");
    let mut rows: Vec<String> = Vec::new();
    let mut i: usize = 0;
    while i < deployments.len()
        invariant
            i <= deployments@.len(),
            rows@.len() == i,
            forall|k: int| 0 <= k < i ==> (#[trigger] rows@[k])@ == history_row(deployments@[k]),
        decreases deployments@.len() - i,
    {
        rows.push(history_row_text(&deployments[i]));
        i = i + 1;
    }
    assert(strings_view(rows@) =~= Seq::new(
        deployments@.len(),
        |i: int| history_row(deployments@[i]),
    ));
    let table = join_with_newlines(&rows);
    push_str(&mut output, table.as_str());
    output
}

pub open spec fn revision_line(deployment: DeploymentResult) -> Seq<char> {
    match deployment.source_revision {
        Some(revision) => "\nSource revision: "@ + source_revision_text(revision),
        None => Seq::empty(),
    }
}

pub open spec fn deployed_text(application_name: Seq<char>, deployment: DeploymentResult) -> Seq<char> {
    "Deployed "@ + application_name + "\nImage: "@ + deployment.artifact.reference_view()
        + revision_line(deployment) + "\nDeployment: "@ + deployment.deployment_id@ + "\nRuntime: "@
        + deployment.runtime_id@ + "\nContainer: "@ + deployment.container_name@
        + "\nStatus: Succeeded"@
}

pub fn deployed(application_name: &ApplicationName, deployment: &DeploymentResult) -> (r: String)
    ensures
        r@ == deployed_text(application_name@, *deployment),
{
    let mut output = "Deployed ".to_owned();
    push_str(&mut output, application_name.as_str());
    push_str(&mut output, "\nImage: ");
    push_str(&mut output, deployment.artifact.reference());
    if let Some(revision) = &deployment.source_revision {
        push_str(&mut output, "\nSource revision: ");
        push_str(&mut output, revision.as_str());
    }
    push_str(&mut output, "\nDeployment: ");
    push_str(&mut output, deployment.deployment_id.as_str());
    push_str(&mut output, "\nRuntime: ");
    push_str(&mut output, deployment.runtime_id.as_str());
    push_str(&mut output, "\nContainer: ");
    push_str(&mut output, deployment.container_name.as_str());
    push_str(&mut output, "\nStatus: Succeeded");
    output
}

pub open spec fn rollback_text(application_name: Seq<char>, rolled_back: DeploymentResult) -> Seq<char> {
    "Rolled back "@ + application_name + "\nImage: "@ + rolled_back.artifact.reference_view()
        + revision_line(rolled_back) + "\nDeployment: "@ + rolled_back.deployment_id@ + "\nRuntime: "@
        + rolled_back.runtime_id@ + "\nStatus: Succeeded"@
}

pub fn rollback_result(application_name: &ApplicationName, rolled_back: &DeploymentResult) -> (r:
    String)
    ensures
        r@ == rollback_text(application_name@, *rolled_back),
{
    let mut output = "Rolled back ".to_owned();
    push_str(&mut output, application_name.as_str());
    push_str(&mut output, "\nImage: ");
    push_str(&mut output, rolled_back.artifact.reference());
    if let Some(revision) = &rolled_back.source_revision {
        push_str(&mut output, "\nSource revision: ");
        push_str(&mut output, revision.as_str());
    }
    push_str(&mut output, "\nDeployment: ");
    push_str(&mut output, rolled_back.deployment_id.as_str());
    push_str(&mut output, "\nRuntime: ");
    push_str(&mut output, rolled_back.runtime_id.as_str());
    push_str(&mut output, "\nStatus: Succeeded");
    output
}

/// The domain is shown only for a public exposure that names one.
/// The visibility of an application after a change, with the domain of a public one.
pub open spec fn visibility_change_message(application_name: Seq<char>, change: ExposureChange) -> Seq<
    char,
> {
    "Visibility for "@ + application_name + ": "@ + visibility_text(change.visibility) + match (
        change.visibility,
        change.domain,
    ) {
        (Visibility::Public, Some(domain)) => "\nDomain: "@ + domain@,
        _ => Seq::empty(),
    }
}

pub fn visibility_change(application_name: &ApplicationName, change: &ExposureChange) -> (r: String)
    ensures
        r@ == visibility_change_message(application_name@, *change),
{
    let mut output = "Visibility for ".to_owned();
    push_str(&mut output, application_name.as_str());
    push_str(&mut output, ": ");
    push_str(&mut output, visibility_label(change.visibility));
    if let Visibility::Public = change.visibility {
        if let Some(domain) = &change.domain {
            push_str(&mut output, "\nDomain: ");
            push_str(&mut output, domain.as_str());
        }
    }
    output
}

pub open spec fn reconciliation_text(result: ReconciliationResult) -> Seq<char> {
    match result {
        ReconciliationResult::NoOp => "\nResult: no-op"@,
        ReconciliationResult::Deferred { blocking_deployment } => "\nResult: deferred"@
            + match blocking_deployment {
            Some(d) => "\nBlocking deployment: "@ + d.id@ + " ("@ + status_text(
                lifecycle_status(d.lifecycle),
            ) + ")"@,
            None => Seq::empty(),
        },
        ReconciliationResult::Repaired { runtime_id, container_id } => "\nResult: repaired\nRuntime: "@
            + runtime_id@ + "\nContainer: "@ + container_id@,
        ReconciliationResult::ManualIntervention { reason } =>
            "\nResult: manual-intervention\nDiagnostic: "@ + reason@,
        ReconciliationResult::ExposureRepaired => "\nResult: repaired"@,
        ReconciliationResult::Failed { reason } => "\nResult: failed\nDiagnostic: "@ + reason@,
        ReconciliationResult::Diverged { reason } => "\nResult: diverged\nDiagnostic: "@ + reason@,
    }
}

pub fn reconciliation_result(application_name: &ApplicationName, result: &ReconciliationResult) -> (r:
    String)
    ensures
        r@ == "Application: "@ + application_name@ + reconciliation_text(*result),
{
    let mut output = "Application: ".to_owned();
    push_str(&mut output, application_name.as_str());
    match result {
        ReconciliationResult::NoOp => push_str(&mut output, "\nResult: no-op"),
        ReconciliationResult::Deferred { blocking_deployment } => {
            push_str(&mut output, "\nResult: deferred");
            if let Some(blocking) = blocking_deployment {
                push_str(&mut output, "\nBlocking deployment: ");
                push_str(&mut output, blocking.id.as_str());
                push_str(&mut output, " (");
                push_str(&mut output, blocking.status().as_str());
                push_str(&mut output, ")");
            }
        },
        ReconciliationResult::Repaired { runtime_id, container_id } => {
            push_str(&mut output, "\nResult: repaired\nRuntime: ");
            push_str(&mut output, runtime_id.as_str());
            push_str(&mut output, "\nContainer: ");
            push_str(&mut output, container_id.as_str());
        },
        ReconciliationResult::ManualIntervention { reason } => {
            push_str(&mut output, "\nResult: manual-intervention\nDiagnostic: ");
            push_str(&mut output, reason.as_str());
        },
        ReconciliationResult::ExposureRepaired => push_str(&mut output, "\nResult: repaired"),
        ReconciliationResult::Failed { reason } => {
            push_str(&mut output, "\nResult: failed\nDiagnostic: ");
            push_str(&mut output, reason.as_str());
        },
        ReconciliationResult::Diverged { reason } => {
            push_str(&mut output, "\nResult: diverged\nDiagnostic: ");
            push_str(&mut output, reason.as_str());
        },
    }
    output
}

pub fn created_system(system: &System) -> (r: String)
    ensures
        r@ == "Created "@ + system.name@,
{
    let mut output = "Created ".to_owned();
    push_str(&mut output, system.name.as_str());
    output
}

/// One system name per line; no systems render nothing.
pub open spec fn system_list_text(systems: Seq<System>) -> Seq<char> {
    join_lines(Seq::new(systems.len(), |i: int| systems[i].name@))
}

pub fn system_list(systems: &[System]) -> (r: String)
    ensures
        r@ == system_list_text(systems@),
{
    let mut rows: Vec<String> = Vec::new();
    let mut i: usize = 0;
    while i < systems.len()
        invariant
            i <= systems@.len(),
            rows@.len() == i,
            forall|k: int| 0 <= k < i ==> (#[trigger] rows@[k])@ == systems@[k].name@,
        decreases systems@.len() - i,
    {
        rows.push(systems[i].name.as_str().to_owned());
        i = i + 1;
    }
    assert(strings_view(rows@) =~= Seq::new(systems@.len(), |i: int| systems@[i].name@));
    join_with_newlines(&rows)
}

pub open spec fn applications_text(applications: Seq<ApplicationSummary>) -> Seq<char>
    decreases applications.len(),
{
    if applications.len() == 0 {
        Seq::empty()
    } else {
        applications_text(applications.drop_last()) + "\n  "@ + applications.last().name@
    }
}

pub open spec fn system_details_text(details: SystemDetails) -> Seq<char> {
    "System: "@ + details.system.name@ + match details.system.description {
        Some(description) => "\nDescription: "@ + description@,
        None => Seq::empty(),
    } + if details.applications@.len() == 0 {
        "\nApplications: (none)"@
    } else {
        "\nApplications:"@ + applications_text(details.applications@)
    }
}

pub fn system_details(details: &SystemDetails) -> (r: String)
    ensures
        r@ == system_details_text(*details),
{
    let mut output = "System: ".to_owned();
    push_str(&mut output, details.system.name.as_str());
    if let Some(description) = &details.system.description {
        push_str(&mut output, "\nDescription: ");
        push_str(&mut output, description.as_str());
    }
    if details.applications.len() == 0 {
        push_str(&mut output, "\nApplications: (none)");
        return output;
    }
    push_str(&mut output, "\nApplications:");
    let ghost start = output@;
    let mut i: usize = 0;
    while i < details.applications.len()
        invariant
            i <= details.applications@.len(),
            output@ == start + applications_text(details.applications@.take(i as int)),
        decreases details.applications@.len() - i,
    {
        push_str(&mut output, "\n  ");
        push_str(&mut output, details.applications[i].name.as_str());
        proof {
            let next = details.applications@.take(i + 1);
            assert(next.drop_last() == details.applications@.take(i as int));
        }
        i = i + 1;
    }
    assert(details.applications@.take(details.applications@.len() as int) == details.applications@);
    output
}

pub fn database_backup(path: &str) -> (r: String)
    ensures
        r@ == "Database backup: "@ + path@,
{
    let mut output = "Database backup: ".to_owned();
    push_str(&mut output, path);
    output
}

pub fn database_restore(path: &str, pre_restore_path: &str) -> (r: String)
    ensures
        r@ == "Database restored from "@ + path@ + "\nPre-restore backup: "@ + pre_restore_path@,
{
    let mut output = "Database restored from ".to_owned();
    push_str(&mut output, path);
    push_str(&mut output, "\nPre-restore backup: ");
    push_str(&mut output, pre_restore_path);
    output
}

pub open spec fn outcome_detail(outcome: CheckOutcome) -> Seq<char> {
    match outcome {
        CheckOutcome::Passed { detail } => detail@,
        CheckOutcome::Failed { detail } => detail@,
        CheckOutcome::Unavailable { detail } => detail@,
    }
}

pub open spec fn doctor_outcome_text(name: Seq<char>, outcome: CheckOutcome, success: Seq<char>) -> Seq<char> {
    if outcome is Passed {
        "✓ "@ + name + ": "@ + success
    } else {
        "✗ "@ + name + ": FAILED ("@ + outcome_detail(outcome) + ")"@
    }
}

pub open spec fn command_availability_text(name: Seq<char>, outcome: CheckOutcome) -> Seq<char> {
    match outcome {
        CheckOutcome::Passed { detail } => "✓ "@ + name + ": "@ + detail@,
        CheckOutcome::Failed { .. } => "✗ "@ + name + ": command failed"@,
        CheckOutcome::Unavailable { detail } => "✗ "@ + name + ": not found ("@ + detail@ + ")"@,
    }
}

pub open spec fn presence_text(name: Seq<char>, path: Seq<char>, exists: bool) -> Seq<char> {
    (if exists {
        "✓"@
    } else {
        "✗"@
    }) + " "@ + name + ": "@ + path + " ("@ + (if exists {
        "exists"@
    } else {
        "does not exist"@
    }) + ")"@
}

/// The line one diagnostic check renders as.
pub open spec fn doctor_check_text(check: DoctorCheck) -> Seq<char> {
    match check {
        DoctorCheck::DatabaseConnection(o) => doctor_outcome_text("Database connection"@, o, "OK"@),
        DoctorCheck::DatabaseSchema(o) => if o is Passed {
            "✓ Database schema: current ("@ + outcome_detail(o) + ")"@
        } else {
            "✗ Database schema: FAILED ("@ + outcome_detail(o) + ")"@
        },
        DoctorCheck::WorkspaceDirectory { path, exists } => presence_text(
            "Workspace directory"@,
            path@,
            exists,
        ),
        DoctorCheck::CaddyManagedDirectory { path, exists } => presence_text(
            "Caddy managed directory"@,
            path@,
            exists,
        ),
        DoctorCheck::Caddyfile { path, exists } => presence_text("Caddyfile"@, path@, exists),
        DoctorCheck::CaddyConfiguration(o) => doctor_outcome_text("Caddy configuration"@, o, "valid"@),
        DoctorCheck::Git(o) => command_availability_text("Git"@, o),
        DoctorCheck::Podman(o) => command_availability_text("Podman"@, o),
        DoctorCheck::ActiveOciImage { image, outcome } => if outcome is Passed {
            "✓ Active OCI image: "@ + image@ + " (pullable)"@
        } else {
            "✗ Active OCI image: "@ + image@ + " (FAILED: "@ + outcome_detail(outcome) + ")"@
        },
        DoctorCheck::ActiveOciImages(o) => "✗ Active OCI images: FAILED ("@ + outcome_detail(o)
            + ")"@,
        DoctorCheck::ActiveLocalImage => "- Active local image: skipped"@,
        DoctorCheck::DiskSpace { path, outcome } => match outcome {
            CheckOutcome::Passed { .. } => "✓ Disk space: "@ + path@ + " (at least 1 GiB free)"@,
            CheckOutcome::Failed { .. } => "✗ Disk space: "@ + path@ + " (less than 1 GiB free)"@,
            CheckOutcome::Unavailable { .. } => "✗ Disk space: "@ + path@ + " (unable to inspect)"@,
        },
        DoctorCheck::PodmanRootless(o) => doctor_outcome_text("Podman rootless"@, o, "OK"@),
        DoctorCheck::PodmanQuadletUserGenerator { path } => match path {
            Some(p) => "✓ Podman Quadlet user generator: "@ + p@,
            None =>
                "✗ Podman Quadlet user generator: not found (install Podman >= 4.4 or Debian 13)"@,
        },
        DoctorCheck::Caddy(o) => command_availability_text("Caddy"@, o),
    }
}

fn outcome_detail_text(outcome: &CheckOutcome) -> (r: &str)
    ensures
        r@ == outcome_detail(*outcome),
{
    match outcome {
        CheckOutcome::Passed { detail } => detail.as_str(),
        CheckOutcome::Failed { detail } => detail.as_str(),
        CheckOutcome::Unavailable { detail } => detail.as_str(),
    }
}

pub fn format_doctor_outcome(name: &str, outcome: &CheckOutcome, success: &str) -> (r: String)
    ensures
        r@ == doctor_outcome_text(name@, *outcome, success@),
{
    match outcome {
        CheckOutcome::Passed { .. } => {
            let mut output = "✓ ".to_owned();
            push_str(&mut output, name);
            push_str(&mut output, ": ");
            push_str(&mut output, success);
            output
        },
        _ => {
            let mut output = "✗ ".to_owned();
            push_str(&mut output, name);
            push_str(&mut output, ": FAILED (");
            push_str(&mut output, outcome_detail_text(outcome));
            push_str(&mut output, ")");
            output
        },
    }
}

pub fn format_command_availability(name: &str, outcome: &CheckOutcome) -> (r: String)
    ensures
        r@ == command_availability_text(name@, *outcome),
{
    match outcome {
        CheckOutcome::Passed { detail } => {
            let mut output = "✓ ".to_owned();
            push_str(&mut output, name);
            push_str(&mut output, ": ");
            push_str(&mut output, detail.as_str());
            output
        },
        CheckOutcome::Failed { .. } => {
            let mut output = "✗ ".to_owned();
            push_str(&mut output, name);
            push_str(&mut output, ": command failed");
            output
        },
        CheckOutcome::Unavailable { detail } => {
            let mut output = "✗ ".to_owned();
            push_str(&mut output, name);
            push_str(&mut output, ": not found (");
            push_str(&mut output, detail.as_str());
            push_str(&mut output, ")");
            output
        },
    }
}

fn presence_line(name: &str, path: &str, exists: bool) -> (r: String)
    ensures
        r@ == presence_text(name@, path@, exists),
{
    let mut output = if exists {
        "✓".to_owned()
    } else {
        "✗".to_owned()
    };
    push_str(&mut output, " ");
    push_str(&mut output, name);
    push_str(&mut output, ": ");
    push_str(&mut output, path);
    push_str(&mut output, " (");
    push_str(&mut output, if exists { "exists" } else { "does not exist" });
    push_str(&mut output, ")");
    output
}

/// Renders one check as a single status line.
pub fn render_doctor_check(check: &DoctorCheck) -> (r: String)
    ensures
        r@ == doctor_check_text(*check),
{
    match check {
        DoctorCheck::DatabaseConnection(outcome) => format_doctor_outcome(
            "Database connection",
            outcome,
            "OK",
        ),
        DoctorCheck::DatabaseSchema(outcome) => {
            let mut output = match outcome {
                CheckOutcome::Passed { .. } => "✓ Database schema: current (".to_owned(),
                _ => "✗ Database schema: FAILED (".to_owned(),
            };
            push_str(&mut output, outcome_detail_text(outcome));
            push_str(&mut output, ")");
            output
        },
        DoctorCheck::WorkspaceDirectory { path, exists } => presence_line(
            "Workspace directory",
            path.as_str(),
            *exists,
        ),
        DoctorCheck::CaddyManagedDirectory { path, exists } => presence_line(
            "Caddy managed directory",
            path.as_str(),
            *exists,
        ),
        DoctorCheck::Caddyfile { path, exists } => presence_line("Caddyfile", path.as_str(), *exists),
        DoctorCheck::CaddyConfiguration(outcome) => format_doctor_outcome(
            "Caddy configuration",
            outcome,
            "valid",
        ),
        DoctorCheck::Git(outcome) => format_command_availability("Git", outcome),
        DoctorCheck::Podman(outcome) => format_command_availability("Podman", outcome),
        DoctorCheck::ActiveOciImage { image, outcome } => match outcome {
            CheckOutcome::Passed { .. } => {
                let mut output = "✓ Active OCI image: ".to_owned();
                push_str(&mut output, image.as_str());
                push_str(&mut output, " (pullable)");
                output
            },
            _ => {
                let mut output = "✗ Active OCI image: ".to_owned();
                push_str(&mut output, image.as_str());
                push_str(&mut output, " (FAILED: ");
                push_str(&mut output, outcome_detail_text(outcome));
                push_str(&mut output, ")");
                output
            },
        },
        DoctorCheck::ActiveOciImages(outcome) => {
            let mut output = "✗ Active OCI images: FAILED (".to_owned();
            push_str(&mut output, outcome_detail_text(outcome));
            push_str(&mut output, ")");
            output
        },
        DoctorCheck::ActiveLocalImage => "- Active local image: skipped".to_owned(),
        DoctorCheck::DiskSpace { path, outcome } => {
            let mut output = match outcome {
                CheckOutcome::Passed { .. } => "✓ Disk space: ".to_owned(),
                _ => "✗ Disk space: ".to_owned(),
            };
            push_str(&mut output, path.as_str());
            match outcome {
                CheckOutcome::Passed { .. } => push_str(&mut output, " (at least 1 GiB free)"),
                CheckOutcome::Failed { .. } => push_str(&mut output, " (less than 1 GiB free)"),
                CheckOutcome::Unavailable { .. } => push_str(&mut output, " (unable to inspect)"),
            }
            output
        },
        DoctorCheck::PodmanRootless(outcome) => format_doctor_outcome(
            "Podman rootless",
            outcome,
            "OK",
        ),
        DoctorCheck::PodmanQuadletUserGenerator { path } => match path {
            Some(p) => {
                let mut output = "✓ Podman Quadlet user generator: ".to_owned();
                push_str(&mut output, p.as_str());
                output
            },
            None => "✗ Podman Quadlet user generator: not found (install Podman >= 4.4 or Debian 13)".to_owned(),
        },
        DoctorCheck::Caddy(outcome) => format_command_availability("Caddy", outcome),
    }
}

pub open spec fn doctor_summary(healthy: bool) -> Seq<char> {
    if healthy {
        "All checks passed!"@
    } else {
        "Some checks failed. Please review the output above."@
    }
}

/// One line per check, a blank line, then the overall verdict.
/// Healthy when no check failed.
pub open spec fn report_healthy(report: DoctorReport) -> bool {
    forall|i: int|
        0 <= i < report.checks@.len() ==> !crate::control::diagnostics::check_failed(
            #[trigger] report.checks@[i],
        )
}

pub open spec fn doctor_report_text(report: DoctorReport) -> Seq<char> {
    join_lines(
        Seq::new(report.checks@.len(), |i: int| doctor_check_text(report.checks@[i])).push(
            Seq::empty(),
        ).push(doctor_summary(report_healthy(report))),
    )
}

pub fn doctor_report(report: &DoctorReport) -> (r: String)
    ensures
        r@ == doctor_report_text(*report),
{
    let mut lines: Vec<String> = Vec::new();
    let mut i: usize = 0;
    while i < report.checks.len()
        invariant
            i <= report.checks@.len(),
            lines@.len() == i,
            forall|k: int| 0 <= k < i ==> (#[trigger] lines@[k])@ == doctor_check_text(report.checks@[k]),
        decreases report.checks@.len() - i,
    {
        lines.push(render_doctor_check(&report.checks[i]));
        i = i + 1;
    }
    lines.push(String::new());
    if report.is_healthy() {
        lines.push("All checks passed!".to_owned());
    } else {
        lines.push("Some checks failed. Please review the output above.".to_owned());
    }
    let ghost healthy = forall|i: int|
        0 <= i < report.checks@.len() ==> !crate::control::diagnostics::check_failed(
            #[trigger] report.checks@[i],
        );
    assert(strings_view(lines@) =~= Seq::new(
        report.checks@.len(),
        |i: int| doctor_check_text(report.checks@[i]),
    ).push(Seq::empty()).push(doctor_summary(healthy)));
    join_with_newlines(&lines)
}

} // verus!
