use pneuma::cli::output::{
    application_started, application_status, application_stopped, database_backup,
    database_restore, deployment_history, deployment_status_label, deployment_type_label,
    desired_runtime_state_label, doctor_report, format_command_availability,
    observed_runtime_state_label, reconciliation_result, system_details, system_list,
    visibility_change, visibility_label,
};
use pneuma::control::diagnostics::{CheckOutcome, DoctorCheck, DoctorReport};
use pneuma::control::outcome::{ExposureChange, ReconciliationResult, RuntimeObservation, SystemDetails};
use pneuma::domain::application::{ApplicationName, DesiredRuntimeState};
use pneuma::domain::deployment::{
    Deployment, DeploymentFailure, DeploymentFailureCode, DeploymentFailureEvidence,
    DeploymentHistory, DeploymentLifecycle, DeploymentStatus, DeploymentType, SourceRevision,
};
use pneuma::domain::exposure::{DomainName, Visibility};
use pneuma::domain::git::CommitSha;
use pneuma::domain::identity::{ApplicationId, DeploymentId, ReleaseId, RuntimeInstanceId, SystemId};
use pneuma::domain::release::{OciArtifact, Release};
use pneuma::domain::runtime::{ContainerId, ObservedRuntimeState};
use pneuma::domain::system::{System, SystemName};

fn observation(
    desired_runtime_state: DesiredRuntimeState,
    observed_runtime_state: ObservedRuntimeState,
) -> RuntimeObservation {
    RuntimeObservation {
        desired_runtime_state,
        observed_runtime_state,
        runtime_id: RuntimeInstanceId::new("0f8d3a2c41b64d7e9a0c5b6e1f2d3a4b").unwrap(),
        container_id: ContainerId::from_text("container-1"),
        observed_endpoint: None,
    }
}

fn application_name() -> ApplicationName {
    ApplicationName::new("portal").unwrap()
}

#[test]
fn labels_every_desired_runtime_state() {
    assert_eq!(desired_runtime_state_label(DesiredRuntimeState::Running), "Running");
    assert_eq!(desired_runtime_state_label(DesiredRuntimeState::Stopped), "Stopped");
}

#[test]
fn labels_every_observed_runtime_state() {
    assert_eq!(observed_runtime_state_label(&ObservedRuntimeState::Missing), "Missing");
    assert_eq!(observed_runtime_state_label(&ObservedRuntimeState::Created), "Created");
    assert_eq!(observed_runtime_state_label(&ObservedRuntimeState::Starting), "Starting");
    assert_eq!(observed_runtime_state_label(&ObservedRuntimeState::Running), "Running");
    assert_eq!(observed_runtime_state_label(&ObservedRuntimeState::Stopping), "Stopping");
    assert_eq!(observed_runtime_state_label(&ObservedRuntimeState::Stopped), "Stopped");
    assert_eq!(observed_runtime_state_label(&ObservedRuntimeState::Failed), "Failed");
}

#[test]
fn unknown_observed_states_keep_the_structured_debug_representation() {
    assert_eq!(
        observed_runtime_state_label(&ObservedRuntimeState::Unknown { status: "weird".to_owned() }),
        "Unknown { status: \"weird\" }"
    );
}

#[test]
fn labels_every_deployment_type_and_status() {
    assert_eq!(deployment_type_label(DeploymentType::Deploy), "Deploy");
    assert_eq!(deployment_type_label(DeploymentType::Rollback), "Rollback");
    assert_eq!(deployment_status_label(DeploymentStatus::Pending), "Pending");
    assert_eq!(deployment_status_label(DeploymentStatus::Starting), "Starting");
    assert_eq!(deployment_status_label(DeploymentStatus::Verifying), "Verifying");
    assert_eq!(deployment_status_label(DeploymentStatus::Activating), "Activating");
    assert_eq!(deployment_status_label(DeploymentStatus::Succeeded), "Succeeded");
    assert_eq!(deployment_status_label(DeploymentStatus::Failed), "Failed");
}

#[test]
fn labels_every_visibility() {
    assert_eq!(visibility_label(Visibility::Public), "Public");
    assert_eq!(visibility_label(Visibility::Internal), "Internal");
}

#[test]
fn deployment_history_renders_explicit_type_and_status_labels() {
    let id = |suffix: u8| DeploymentId::new(&format!("{}{suffix:x}", "a".repeat(31))).unwrap();
    let digest = format!("sha256:{}", "a".repeat(64));
    let sha = CommitSha::new(&"b".repeat(40)).unwrap();
    let release = Release {
        id: ReleaseId::new(&"d".repeat(32)).unwrap(),
        application_id: ApplicationId::new(&"c".repeat(32)).unwrap(),
        artifact: OciArtifact::new("registry.example/team/service", &digest).unwrap(),
        created_at: "2026-09-02T09:00:00Z".to_owned(),
    };
    let succeeded = DeploymentHistory {
        deployment: Deployment {
            id: id(1),
            application_id: ApplicationId::new(&"c".repeat(32)).unwrap(),
            release_id: ReleaseId::new(&"d".repeat(32)).unwrap(),
            deployment_type: DeploymentType::Deploy,
            lifecycle: DeploymentLifecycle::Succeeded {
                finished_at: "2026-09-02T10:00:00Z".to_owned(),
            },
            source_revision: Some(SourceRevision::from_commit(sha.clone())),
            requested_at: "2026-09-02T09:59:00Z".to_owned(),
            started_at: Some("2026-09-02T09:59:30Z".to_owned()),
        },
        release: release.clone(),
        is_active: true,
    };
    let failed = DeploymentHistory {
        deployment: Deployment {
            id: id(2),
            application_id: ApplicationId::new(&"c".repeat(32)).unwrap(),
            release_id: ReleaseId::new(&"d".repeat(32)).unwrap(),
            deployment_type: DeploymentType::Rollback,
            lifecycle: DeploymentLifecycle::Failed {
                evidence: DeploymentFailureEvidence::Complete(DeploymentFailure {
                    code: DeploymentFailureCode::RuntimeStart.as_str().to_owned(),
                    stage: DeploymentStatus::Starting,
                    message: "start rejected".to_owned(),
                    finished_at: "2026-09-02T11:00:00Z".to_owned(),
                }),
            },
            source_revision: None,
            requested_at: "2026-09-02T09:59:00Z".to_owned(),
            started_at: None,
        },
        release,
        is_active: false,
    };

    let rendered = deployment_history(&application_name(), &[succeeded, failed]);
    let rows: Vec<&str> = rendered.lines().collect();
    assert_eq!(rows[0], "Deployments for portal:");
    assert_eq!(
        rows[2],
        format!(
            "{}\tDeploy\t{digest}\t{}\tSucceeded\t2026-09-02T09:59:30Z\t2026-09-02T10:00:00Z\tyes\t-",
            id(1).as_str(),
            sha.as_str()
        )
    );
    assert_eq!(
        rows[3],
        format!(
            "{}\tRollback\t{digest}\t-\tFailed\t-\t2026-09-02T11:00:00Z\tno\truntime_start_failed:starting:start rejected",
            id(2).as_str()
        )
    );
    assert_eq!(rows.len(), 4);
    assert_eq!(deployment_history(&application_name(), &[]), "No deployments for portal");
}

#[test]
fn application_status_renders_heading_with_runtime_fields() {
    let rendered = application_status(
        &application_name(),
        &observation(DesiredRuntimeState::Running, ObservedRuntimeState::Running),
    );
    assert_eq!(
        rendered,
        "Application: portal\n\
         Desired state: Running\n\
         Observed state: Running\n\
         Runtime: 0f8d3a2c41b64d7e9a0c5b6e1f2d3a4b\n\
         Container: container-1"
    );
}

#[test]
fn application_stopped_renders_heading_with_lifecycle_states() {
    let rendered = application_stopped(
        &application_name(),
        &observation(DesiredRuntimeState::Stopped, ObservedRuntimeState::Stopped),
    );
    assert_eq!(rendered, "Stopped portal\nDesired state: Stopped\nObserved state: Stopped");
}

#[test]
fn application_started_renders_heading_with_lifecycle_states() {
    let rendered = application_started(
        &application_name(),
        &observation(DesiredRuntimeState::Running, ObservedRuntimeState::Running),
    );
    assert_eq!(rendered, "Started portal\nDesired state: Running\nObserved state: Running");
}

#[test]
fn empty_system_list_renders_no_output() {
    assert_eq!(system_list(&[]), "");
}

#[test]
fn database_restore_names_both_paths() {
    let rendered = database_restore("/tmp/restore.sqlite3", "/tmp/pre-restore.sqlite3");
    assert!(rendered.contains("/tmp/restore.sqlite3"));
    assert!(rendered.contains("/tmp/pre-restore.sqlite3"));
    assert_eq!(database_backup("/tmp/b.sqlite3"), "Database backup: /tmp/b.sqlite3");
}

#[test]
fn systems_list_one_per_line_and_details_name_their_applications() {
    let system = |name: &str| System {
        id: SystemId::new(&"1".repeat(32)).unwrap(),
        name: SystemName::new(name).unwrap(),
        description: None,
    };
    assert_eq!(system_list(&[system("alpha"), system("beta")]), "alpha\nbeta");
    let details = SystemDetails {
        system: System { description: Some("Core".to_owned()), ..system("alpha") },
        applications: Vec::new(),
    };
    assert_eq!(system_details(&details), "System: alpha\nDescription: Core\nApplications: (none)");
}

#[test]
fn public_visibility_changes_name_their_domain() {
    let change = ExposureChange {
        visibility: Visibility::Public,
        domain: Some(DomainName::new("app.example").unwrap()),
    };
    assert_eq!(
        visibility_change(&application_name(), &change),
        "Visibility for portal: Public\nDomain: app.example"
    );
    let change = ExposureChange {
        visibility: Visibility::Internal,
        domain: Some(DomainName::new("app.example").unwrap()),
    };
    assert_eq!(visibility_change(&application_name(), &change), "Visibility for portal: Internal");
}

#[test]
fn reconciliation_results_render_their_outcome() {
    assert_eq!(
        reconciliation_result(&application_name(), &ReconciliationResult::NoOp),
        "Application: portal\nResult: no-op"
    );
    assert_eq!(
        reconciliation_result(
            &application_name(),
            &ReconciliationResult::ManualIntervention { reason: "drift".to_owned() }
        ),
        "Application: portal\nResult: manual-intervention\nDiagnostic: drift"
    );
}

#[test]
fn doctor_reports_render_each_check_and_the_verdict() {
    let healthy = DoctorReport {
        checks: vec![
            DoctorCheck::Git(CheckOutcome::Passed { detail: "git version 2.47".to_owned() }),
            DoctorCheck::ActiveLocalImage,
        ],
    };
    assert!(healthy.is_healthy());
    assert_eq!(
        doctor_report(&healthy),
        "✓ Git: git version 2.47\n- Active local image: skipped\n\nAll checks passed!"
    );
    let unhealthy = DoctorReport {
        checks: vec![DoctorCheck::WorkspaceDirectory { path: "/w".to_owned(), exists: false }],
    };
    assert!(!unhealthy.is_healthy());
    assert_eq!(
        doctor_report(&unhealthy),
        "✗ Workspace directory: /w (does not exist)\n\nSome checks failed. Please review the output above."
    );
    assert_eq!(
        format_command_availability("Podman", &CheckOutcome::Unavailable { detail: "not on PATH".to_owned() }),
        "✗ Podman: not found (not on PATH)"
    );
}
