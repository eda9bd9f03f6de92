use pneuma::deploy_internal_revision::candidate::{
    candidate_step, CandidateCommand, CandidateEvent, CandidateStage, CandidateState,
};
use pneuma::deploy_internal_revision::existing_runtime::{
    existing_runtime_step, ExistingRuntime, ExistingRuntimeCommand, ExistingRuntimeError,
    ExistingRuntimeEvent, ExistingRuntimeState,
};
use pneuma::deploy_internal_revision::{
    failed_deployment_error, failure_needing_persistence, DeploymentProgress, DeploymentStep,
    ExistingRuntimeRole, FailedDeploymentError, ObservationUpdate,
};
use pneuma::create_deployment::DeploymentStatus;
use pneuma::domain::release::OciArtifact;
use pneuma::domain::runtime::{IpAddress, SocketAddress};
use pneuma::local_runtime::{ContainerObservation, ObservedRuntimeState};

fn loopback(port: u16) -> SocketAddress {
    SocketAddress { ip: IpAddress::V4(127, 0, 0, 1), port }
}

fn candidate() -> CandidateState {
    CandidateState::new("dep1".to_owned(), "abc123".to_owned(), 8080, "/health".to_owned(), 200)
}

fn started(step: DeploymentStep, detail: &str) -> DeploymentProgress {
    DeploymentProgress::StepStarted { step, detail: detail.to_owned() }
}

fn completed(step: DeploymentStep, detail: &str) -> DeploymentProgress {
    DeploymentProgress::StepCompleted { step, detail: detail.to_owned() }
}

#[test]
fn a_healthy_candidate_runs_every_step_then_succeeds() {
    let (state, action) = candidate_step(candidate(), CandidateEvent::Begin);
    assert_eq!(action.progress, vec![started(DeploymentStep::StartContainer, "container abc123")]);
    assert!(matches!(action.command, CandidateCommand::StartContainer { ref container_id } if container_id == "abc123"));

    let (state, action) = candidate_step(state, CandidateEvent::StartSucceeded);
    assert_eq!(
        action.progress,
        vec![
            completed(DeploymentStep::StartContainer, "container abc123"),
            started(DeploymentStep::ObserveContainer, "container abc123"),
        ]
    );
    assert!(matches!(action.command, CandidateCommand::ObserveContainer { container_port: 8080, .. }));

    let observation =
        ContainerObservation { state: ObservedRuntimeState::Running, endpoint: Some(loopback(43125)) };
    let (state, action) = candidate_step(state, CandidateEvent::Observed { observation });
    assert_eq!(
        action.progress,
        vec![
            completed(DeploymentStep::ObserveContainer, "state Running, endpoint 127.0.0.1:43125"),
            started(
                DeploymentStep::RegisterCandidate,
                "container abc123, endpoint 127.0.0.1:43125"
            ),
        ]
    );
    assert!(matches!(
        action.command,
        CandidateCommand::RegisterRuntime { ref deployment_id, endpoint, container_port: 8080, .. }
            if deployment_id == "dep1" && endpoint == loopback(43125)
    ));

    let (state, action) =
        candidate_step(state, CandidateEvent::Registered { runtime_id: "rt1".to_owned() });
    assert_eq!(action.progress, vec![completed(DeploymentStep::RegisterCandidate, "runtime rt1")]);
    assert!(matches!(action.command, CandidateCommand::MarkRuntimeRunning { ref deployment_id } if deployment_id == "dep1"));

    let (state, action) = candidate_step(state, CandidateEvent::Advanced);
    assert_eq!(
        action.progress,
        vec![
            DeploymentProgress::StateChanged {
                deployment_id: "dep1".to_owned(),
                status: DeploymentStatus::VerifyingInternal,
            },
            started(
                DeploymentStep::HealthCheckAndPromotion,
                "runtime rt1, path /health, expected status 200"
            ),
        ]
    );
    assert!(matches!(
        action.command,
        CandidateCommand::Promote { ref runtime_id, ref health_path, expected_status: 200 }
            if runtime_id == "rt1" && health_path == "/health"
    ));

    let (state, action) =
        candidate_step(state, CandidateEvent::Promoted { finished_at: "2024-01-01".to_owned() });
    assert_eq!(
        action.progress,
        vec![
            completed(DeploymentStep::HealthCheckAndPromotion, "runtime rt1 promoted to Current"),
            DeploymentProgress::StateChanged {
                deployment_id: "dep1".to_owned(),
                status: DeploymentStatus::Succeeded,
            },
        ]
    );
    assert!(matches!(
        action.command,
        CandidateCommand::Succeed { ref runtime_id, ref finished_at }
            if runtime_id == "rt1" && finished_at == "2024-01-01"
    ));
    assert_eq!(state.stage, CandidateStage::Done);

    let (state, action) = candidate_step(state, CandidateEvent::Advanced);
    assert!(matches!(action.command, CandidateCommand::Ignore));
    assert!(action.progress.is_empty());
    assert_eq!(state.stage, CandidateStage::Done);
}

fn failure_of(command: CandidateCommand) -> (String, String, Option<String>, Option<String>, bool) {
    match command {
        CandidateCommand::Fail { failure } => (
            failure.code.to_owned(),
            failure.message,
            failure.container_id,
            failure.runtime_id,
            failure.failure_persisted,
        ),
        other => panic!("expected a failure, got {other:?}"),
    }
}

#[test]
fn candidate_failures_carry_the_stage_code_and_the_candidate() {
    let (starting, _) = candidate_step(candidate(), CandidateEvent::Begin);
    let (_, action) = candidate_step(starting, CandidateEvent::StartFailed { message: "no".to_owned() });
    assert_eq!(
        failure_of(action.command),
        ("runtime_start_failed".to_owned(), "no".to_owned(), Some("abc123".to_owned()), None, false)
    );

    let observing = || {
        let (s, _) = candidate_step(candidate(), CandidateEvent::Begin);
        candidate_step(s, CandidateEvent::StartSucceeded).0
    };
    let stopped = ContainerObservation { state: ObservedRuntimeState::Stopped, endpoint: None };
    let (_, action) = candidate_step(observing(), CandidateEvent::Observed { observation: stopped });
    let (code, message, ..) = failure_of(action.command);
    assert_eq!(code, "runtime_observation_failed");
    assert_eq!(message, "expected runtime to be Running, got Stopped");

    let no_endpoint = ContainerObservation { state: ObservedRuntimeState::Running, endpoint: None };
    let (_, action) = candidate_step(observing(), CandidateEvent::Observed { observation: no_endpoint });
    let (code, message, ..) = failure_of(action.command);
    assert_eq!(code, "runtime_observation_failed");
    assert_eq!(message, "running runtime has no loopback endpoint");

    let registering = || {
        let observation =
            ContainerObservation { state: ObservedRuntimeState::Running, endpoint: Some(loopback(1)) };
        candidate_step(observing(), CandidateEvent::Observed { observation }).0
    };
    let (_, action) =
        candidate_step(registering(), CandidateEvent::RegistrationFailed { message: "db".to_owned() });
    assert_eq!(failure_of(action.command).0, "runtime_registration_failed");

    let advancing =
        || candidate_step(registering(), CandidateEvent::Registered { runtime_id: "rt1".to_owned() }).0;
    let (_, action) = candidate_step(advancing(), CandidateEvent::AdvanceFailed { message: "x".to_owned() });
    assert_eq!(
        failure_of(action.command),
        (
            "deployment_transition_failed".to_owned(),
            "x".to_owned(),
            Some("abc123".to_owned()),
            Some("rt1".to_owned()),
            false
        )
    );

    let promoting = || candidate_step(advancing(), CandidateEvent::Advanced).0;
    let (_, action) =
        candidate_step(promoting(), CandidateEvent::CandidateUnhealthy { message: "503".to_owned() });
    assert_eq!(
        failure_of(action.command),
        (
            "health_check_failed".to_owned(),
            "503".to_owned(),
            Some("abc123".to_owned()),
            Some("rt1".to_owned()),
            true
        )
    );
    let (_, action) =
        candidate_step(promoting(), CandidateEvent::PromotionFailed { message: "caddy".to_owned() });
    let (code, _, _, runtime, persisted) = failure_of(action.command);
    assert_eq!(code, "candidate_promotion_failed");
    assert_eq!(runtime.as_deref(), Some("rt1"));
    assert!(!persisted);
}

fn retained(role: ExistingRuntimeRole) -> ExistingRuntimeState {
    ExistingRuntimeState::new(
        "app1".to_owned(),
        "site".to_owned(),
        "e".repeat(40),
        "/health".to_owned(),
        200,
        ExistingRuntime {
            runtime_id: "rt7".to_owned(),
            deployment_id: "dep7".to_owned(),
            external_runtime_id: "c0ffee".to_owned(),
            container_port: 8080,
            finished_at: "2024-02-02".to_owned(),
            role,
        },
    )
}

fn observed(state: ExistingRuntimeState, observation: ContainerObservation) -> ExistingRuntimeState {
    let (state, _) = existing_runtime_step(state, ExistingRuntimeEvent::Begin);
    existing_runtime_step(state, ExistingRuntimeEvent::Observed { observation }).0
}

#[test]
fn a_healthy_current_runtime_is_reused() {
    let (state, action) = existing_runtime_step(retained(ExistingRuntimeRole::Current), ExistingRuntimeEvent::Begin);
    assert_eq!(
        action.progress,
        vec![started(
            DeploymentStep::ReconcileRuntime,
            &format!("runtime rt7, role Current, commit {}", "e".repeat(40))
        )]
    );
    assert!(matches!(action.command, ExistingRuntimeCommand::Observe { ref container_id, container_port: 8080 } if container_id == "c0ffee"));

    let observation =
        ContainerObservation { state: ObservedRuntimeState::Running, endpoint: Some(loopback(40000)) };
    let (state, action) = existing_runtime_step(state, ExistingRuntimeEvent::Observed { observation });
    assert!(matches!(
        action.command,
        ExistingRuntimeCommand::Persist {
            ref runtime_id,
            role: ExistingRuntimeRole::Current,
            state: "running",
            update: ObservationUpdate::StateAndPort { port: 40000 },
        } if runtime_id == "rt7"
    ));

    let (state, action) = existing_runtime_step(state, ExistingRuntimeEvent::Persisted { updated: 1 });
    assert!(matches!(action.command, ExistingRuntimeCommand::CheckHealth { endpoint, expected_status: 200, .. } if endpoint == loopback(40000)));

    let (_, action) = existing_runtime_step(state, ExistingRuntimeEvent::Healthy);
    assert_eq!(
        action.progress,
        vec![completed(DeploymentStep::ReconcileRuntime, "runtime rt7 is running and healthy")]
    );
    match action.command {
        ExistingRuntimeCommand::Finish { result: Ok(Some(deployed)) } => {
            assert_eq!(deployed.deployment_id, "dep7");
            assert_eq!(deployed.runtime_id, "rt7");
            assert_eq!(deployed.container_name, format!("pneuma-site-{}", "e".repeat(40)));
            assert_eq!(deployed.finished_at, "2024-02-02");
        }
        other => panic!("unexpected {other:?}"),
    }
}

#[test]
fn a_stopped_previous_runtime_is_restarted_checked_and_reactivated() {
    let stopped = ContainerObservation { state: ObservedRuntimeState::Stopped, endpoint: None };
    let state = observed(retained(ExistingRuntimeRole::Previous), stopped);
    let (state, action) = existing_runtime_step(state, ExistingRuntimeEvent::Persisted { updated: 1 });
    assert!(matches!(action.command, ExistingRuntimeCommand::Start { ref container_id } if container_id == "c0ffee"));
    let (state, action) = existing_runtime_step(state, ExistingRuntimeEvent::StartSucceeded);
    assert!(matches!(action.command, ExistingRuntimeCommand::Observe { .. }));

    let running = ContainerObservation { state: ObservedRuntimeState::Running, endpoint: Some(loopback(40001)) };
    let (state, _) = existing_runtime_step(state, ExistingRuntimeEvent::Observed { observation: running });
    let (state, action) = existing_runtime_step(state, ExistingRuntimeEvent::Persisted { updated: 1 });
    assert!(matches!(action.command, ExistingRuntimeCommand::CheckHealth { .. }));
    let (state, action) = existing_runtime_step(state, ExistingRuntimeEvent::Healthy);
    assert!(matches!(
        action.command,
        ExistingRuntimeCommand::Reactivate { ref application_id, ref runtime_id }
            if application_id == "app1" && runtime_id == "rt7"
    ));
    let (_, action) = existing_runtime_step(state, ExistingRuntimeEvent::Reactivated);
    assert_eq!(
        action.progress,
        vec![completed(DeploymentStep::ReconcileRuntime, "runtime rt7 reactivated as Current")]
    );
    assert!(matches!(action.command, ExistingRuntimeCommand::Finish { result: Ok(Some(_)) }));
}

#[test]
fn retained_runtimes_that_cannot_be_reused() {
    let missing = ContainerObservation { state: ObservedRuntimeState::Missing, endpoint: None };
    let (_, action) = existing_runtime_step(
        observed(retained(ExistingRuntimeRole::Current), missing),
        ExistingRuntimeEvent::Persisted { updated: 1 },
    );
    assert_eq!(
        action.progress,
        vec![completed(
            DeploymentStep::ReconcileRuntime,
            "runtime rt7 is missing; a new deployment is required"
        )]
    );
    assert!(matches!(action.command, ExistingRuntimeCommand::Finish { result: Ok(None) }));

    let running = ContainerObservation { state: ObservedRuntimeState::Running, endpoint: Some(loopback(1)) };
    let (_, action) = existing_runtime_step(
        observed(retained(ExistingRuntimeRole::Current), running),
        ExistingRuntimeEvent::Persisted { updated: 0 },
    );
    match action.command {
        ExistingRuntimeCommand::Finish { result: Err(error) } => {
            assert_eq!(error, ExistingRuntimeError::ExistingRuntimeChanged { runtime_id: "rt7".to_owned() });
            assert_eq!(error.message(), "existing runtime `rt7` changed while it was being reconciled");
        }
        other => panic!("unexpected {other:?}"),
    }

    let failed = ContainerObservation { state: ObservedRuntimeState::Failed, endpoint: None };
    let (_, action) = existing_runtime_step(
        observed(retained(ExistingRuntimeRole::Current), failed),
        ExistingRuntimeEvent::Persisted { updated: 1 },
    );
    match action.command {
        ExistingRuntimeCommand::Finish { result: Err(error) } => assert_eq!(
            error.message(),
            "existing runtime `rt7` cannot be reconciled from state Failed"
        ),
        other => panic!("unexpected {other:?}"),
    }

    let running = ContainerObservation { state: ObservedRuntimeState::Running, endpoint: Some(loopback(1)) };
    let (state, _) = existing_runtime_step(
        observed(retained(ExistingRuntimeRole::Current), running),
        ExistingRuntimeEvent::Persisted { updated: 1 },
    );
    let (_, action) =
        existing_runtime_step(state, ExistingRuntimeEvent::Unhealthy { result: "status 503".to_owned() });
    match action.command {
        ExistingRuntimeCommand::Finish { result: Err(error) } => {
            assert_eq!(error.message(), "existing runtime `rt7` is unhealthy: status 503")
        }
        other => panic!("unexpected {other:?}"),
    }
}

#[test]
fn cleanup_errors_come_before_record_errors_before_the_failure() {
    let failed = || failure_needing_persistence("image_build_failed", "boom".to_owned(), Some("abc"), None);
    let cleanup = failed_deployment_error("dep1", failed(), Some("db".to_owned()), Some("podman".to_owned()));
    assert_eq!(
        cleanup.message(),
        "deployment `dep1` encountered `boom` and its candidate could not be cleaned up: podman"
    );
    let record = failed_deployment_error("dep1", failed(), Some("db".to_owned()), None);
    assert_eq!(
        record.message(),
        "deployment `dep1` encountered `boom` and its failure could not be recorded: db"
    );
    let plain = failed_deployment_error("dep1", failed(), None, None);
    assert!(matches!(plain, FailedDeploymentError::DeploymentFailed { code: "image_build_failed", .. }));
    assert_eq!(plain.message(), "deployment `dep1` failed with `image_build_failed`: boom");
}

#[test]
fn building_an_artifact_agrees_with_parsing_its_reference() {
    let digest = format!("sha256:{}", "0123456789abcdef".repeat(4));
    let built = OciArtifact::new("registry.example/app", &digest).unwrap();
    let parsed = OciArtifact::parse(&format!("registry.example/app@{digest}")).unwrap();
    assert_eq!(built, parsed);
    assert_eq!(built.repository(), "registry.example/app");
    assert!(OciArtifact::new("registry.example/app:latest", &digest).is_err());
    assert!(OciArtifact::parse(&format!("registry.example/app:latest@{digest}")).is_err());
    assert!(OciArtifact::new("registry.example/app", "sha256:abc").is_err());
}
