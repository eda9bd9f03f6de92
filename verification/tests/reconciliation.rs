use pneuma::domain::application::{
    Application, ApplicationDeploymentSpecification, ApplicationName, DesiredRuntimeState,
};
use pneuma::domain::deployment::{Deployment, DeploymentLifecycle, DeploymentType};
use pneuma::domain::exposure::{DomainName, Exposure, ExposureMaterializationState, Visibility};
use pneuma::domain::identity::{
    ApplicationId, DeploymentId, ReleaseId, RuntimeInstanceId, SystemId,
};
use pneuma::domain::reconciliation::{
    decide, ActiveRuntime, CaddyFragmentObservation, DesiredState, NamedContainerObservation,
    PersistedState, PublicExposureFailure, PublicExposureFailureKind, QuadletSourceObservation,
    ReconciliationDecision, ReconciliationDecisionError, ReconciliationExpectations,
    ReconciliationInput, ReconciliationObservation, RuntimeIdentityRepair,
    RuntimeRematerialization, SystemdUnitObservation,
};
use pneuma::domain::release::{OciArtifact, Release};
use pneuma::domain::runtime::{
    ContainerId, ContainerObservation, ContainerPort, ExpectedRuntimeEndpoint, HealthCheckPath,
    HealthCheckSpecification, HealthCheckStatus, IpAddress, ObservedRuntimeState,
    RuntimeInstance, RuntimeSpecification, RuntimeState, SocketAddress,
};

const APPLICATION_ID: &str = "11111111111111111111111111111111";
const RELEASE_ID: &str = "22222222222222222222222222222222";
const DEPLOYMENT_ID: &str = "33333333333333333333333333333333";
const RUNTIME_ID: &str = "44444444444444444444444444444444";
const SYSTEM_ID: &str = "55555555555555555555555555555555";
const CONTAINER_ID: &str = "bbbbbbbbbbbbbbbbbbbbbbbbbbbbbbbb";
const CANONICAL_UNIT: &str = "canonical-unit";
const CANONICAL_ROUTE: &str = "app.example { reverse_proxy }";
const TIMESTAMP: &str = "2026-01-01T00:00:00Z";

fn application_name() -> ApplicationName {
    ApplicationName::new("app").unwrap()
}

fn loopback(port: u16) -> SocketAddress {
    SocketAddress { ip: IpAddress::V4(127, 0, 0, 1), port }
}

fn socket_addr() -> SocketAddress {
    loopback(30000)
}

fn endpoint() -> ExpectedRuntimeEndpoint {
    ExpectedRuntimeEndpoint::new(socket_addr()).unwrap()
}

fn deployment() -> Deployment {
    Deployment {
        id: DeploymentId::new(DEPLOYMENT_ID).unwrap(),
        application_id: ApplicationId::new(APPLICATION_ID).unwrap(),
        release_id: ReleaseId::new(RELEASE_ID).unwrap(),
        deployment_type: DeploymentType::Deploy,
        lifecycle: DeploymentLifecycle::Succeeded { finished_at: TIMESTAMP.to_owned() },
        source_revision: None,
        requested_at: TIMESTAMP.to_owned(),
        started_at: Some(TIMESTAMP.to_owned()),
    }
}

fn release() -> Release {
    Release {
        id: ReleaseId::new(RELEASE_ID).unwrap(),
        application_id: ApplicationId::new(APPLICATION_ID).unwrap(),
        artifact: OciArtifact::parse(&format!(
            "registry.example/team/app@sha256:{}",
            "a".repeat(64)
        ))
        .unwrap(),
        created_at: TIMESTAMP.to_owned(),
    }
}

fn runtime() -> RuntimeInstance {
    RuntimeInstance {
        id: RuntimeInstanceId::new(RUNTIME_ID).unwrap(),
        application_id: ApplicationId::new(APPLICATION_ID).unwrap(),
        deployment_id: DeploymentId::new(DEPLOYMENT_ID).unwrap(),
        external_runtime_id: ContainerId::from_text(CONTAINER_ID),
        state: RuntimeState::Running,
        expected_endpoint: endpoint(),
        container_port: ContainerPort::new(8080).unwrap(),
        observed_state: ObservedRuntimeState::Running,
        observed_at: TIMESTAMP.to_owned(),
        exit_code: None,
        observation_reason: None,
        retirement: None,
    }
}

fn specification() -> ApplicationDeploymentSpecification {
    ApplicationDeploymentSpecification {
        application_id: ApplicationId::new(APPLICATION_ID).unwrap(),
        application_name: application_name(),
        runtime: RuntimeSpecification::new(
            ContainerPort::new(8080).unwrap(),
            HealthCheckSpecification::new(
                HealthCheckPath::new("/healthz").unwrap(),
                HealthCheckStatus::new(200).unwrap(),
            ),
        ),
        visibility: Visibility::Internal,
    }
}

fn input(desired_state: DesiredRuntimeState, exposure: Option<Exposure>) -> ReconciliationInput {
    ReconciliationInput {
        desired: DesiredState {
            application: Application {
                id: ApplicationId::new(APPLICATION_ID).unwrap(),
                system_id: Some(SystemId::new(SYSTEM_ID).unwrap()),
                name: application_name(),
                desired_runtime_state: desired_state,
                active_deployment_id: Some(DeploymentId::new(DEPLOYMENT_ID).unwrap()),
                specification_version: 1,
            },
            exposure,
        },
        persisted: PersistedState {
            blocking_deployment: None,
            active: Some(ActiveRuntime {
                deployment: deployment(),
                release: release(),
                runtime: Some(runtime()),
            }),
            specification: Some(specification()),
        },
    }
}

fn observation(
    recorded_container: ContainerObservation,
    named_container: NamedContainerObservation,
    quadlet_source: QuadletSourceObservation,
    systemd_unit: SystemdUnitObservation,
    caddy_fragment: CaddyFragmentObservation,
) -> ReconciliationObservation {
    ReconciliationObservation {
        recorded_container,
        named_container,
        quadlet_source,
        systemd_unit,
        caddy_fragment,
    }
}

fn everything_missing() -> ReconciliationObservation {
    observation(
        ContainerObservation::missing(),
        NamedContainerObservation::Missing,
        QuadletSourceObservation::Missing,
        SystemdUnitObservation::Missing,
        CaddyFragmentObservation::Missing,
    )
}

fn expectations(canonical_route_fragment: Option<String>) -> ReconciliationExpectations {
    ReconciliationExpectations {
        container_name: format!("pneuma-app-{DEPLOYMENT_ID}"),
        canonical_quadlet_contents: CANONICAL_UNIT.to_owned(),
        canonical_route_fragment,
    }
}

fn recreated_container(
    name: String,
    image_reference: String,
    application_label: Option<String>,
    image_digest_label: Option<String>,
    container_observation: ContainerObservation,
) -> NamedContainerObservation {
    NamedContainerObservation::Present {
        id: ContainerId::from_text(CONTAINER_ID),
        name,
        image_reference,
        application_label,
        image_digest_label,
        observation: container_observation,
    }
}

fn named_present(container_observation: ContainerObservation) -> NamedContainerObservation {
    let artifact = release().artifact;
    recreated_container(
        format!("/pneuma-app-{DEPLOYMENT_ID}"),
        artifact.reference().to_owned(),
        Some("app".to_owned()),
        Some(artifact.digest().to_owned()),
        container_observation,
    )
}

fn quadlet(contents: &str) -> QuadletSourceObservation {
    QuadletSourceObservation::Present { contents: contents.to_owned() }
}

fn active_unit() -> SystemdUnitObservation {
    SystemdUnitObservation::Present { active_state: "active".to_owned() }
}

fn running() -> ContainerObservation {
    ContainerObservation::running(socket_addr()).unwrap()
}

fn internal_exposure(state: ExposureMaterializationState) -> Exposure {
    Exposure {
        application_id: ApplicationId::new(APPLICATION_ID).unwrap(),
        desired_visibility: Visibility::Internal,
        domain: None,
        active_runtime_id: None,
        materialization_state: state,
        configuration_version: None,
        last_materialized_at: None,
        last_error_code: None,
        last_error_message: None,
    }
}

fn public_exposure(state: ExposureMaterializationState, confirmed_route: bool) -> Exposure {
    let failed = matches!(
        state,
        ExposureMaterializationState::Failed | ExposureMaterializationState::Diverged
    );
    Exposure {
        application_id: ApplicationId::new(APPLICATION_ID).unwrap(),
        desired_visibility: Visibility::Public,
        domain: Some(DomainName::new("app.example").unwrap()),
        active_runtime_id: if confirmed_route {
            Some(RuntimeInstanceId::new(RUNTIME_ID).unwrap())
        } else {
            None
        },
        materialization_state: state,
        configuration_version: if confirmed_route { Some(CANONICAL_ROUTE.to_owned()) } else { None },
        last_materialized_at: if confirmed_route { Some(TIMESTAMP.to_owned()) } else { None },
        last_error_code: if failed { Some("test".to_owned()) } else { None },
        last_error_message: if failed { Some("test diagnostic".to_owned()) } else { None },
    }
}

fn is_manual(decision: &ReconciliationDecision) -> bool {
    matches!(decision, ReconciliationDecision::RequireManualIntervention(_))
}

#[test]
fn stopped_application_fully_absent_is_in_sync() {
    let input = input(DesiredRuntimeState::Stopped, None);
    let decision = decide(&input, &everything_missing(), &expectations(None)).unwrap();
    assert_eq!(decision, ReconciliationDecision::InSync);
}

#[test]
fn stopped_drift_without_a_safe_rule_is_refused() {
    let input = input(DesiredRuntimeState::Stopped, None);
    let observed = ReconciliationObservation {
        caddy_fragment: CaddyFragmentObservation::Present { contents: "stale".to_owned() },
        ..everything_missing()
    };
    let error = decide(&input, &observed, &expectations(None)).unwrap_err();
    assert!(matches!(error, ReconciliationDecisionError::UnhandledDrift));
}

#[test]
fn known_stopped_recorded_runtime_is_not_silently_restarted_while_running_is_desired() {
    let input = input(DesiredRuntimeState::Running, None);
    let observed = observation(
        ContainerObservation::not_running(ObservedRuntimeState::Stopped).unwrap(),
        NamedContainerObservation::Missing,
        QuadletSourceObservation::Missing,
        SystemdUnitObservation::Missing,
        CaddyFragmentObservation::Missing,
    );
    let decision = decide(&input, &observed, &expectations(None)).unwrap();
    assert!(is_manual(&decision));
}

#[test]
fn unknown_recorded_runtime_state_requires_manual_intervention_while_running_is_desired() {
    let input = input(DesiredRuntimeState::Running, None);
    let observed = observation(
        ContainerObservation::not_running(ObservedRuntimeState::Unknown {
            status: "restarting".to_owned(),
        })
        .unwrap(),
        NamedContainerObservation::Missing,
        QuadletSourceObservation::Missing,
        SystemdUnitObservation::Missing,
        CaddyFragmentObservation::Missing,
    );
    let decision = decide(&input, &observed, &expectations(None)).unwrap();
    assert!(is_manual(&decision));
}

#[test]
fn unknown_recorded_runtime_state_is_refused_when_stopped_is_desired() {
    let input = input(DesiredRuntimeState::Stopped, None);
    let observed = observation(
        ContainerObservation::not_running(ObservedRuntimeState::Unknown {
            status: "restarting".to_owned(),
        })
        .unwrap(),
        NamedContainerObservation::Missing,
        QuadletSourceObservation::Missing,
        SystemdUnitObservation::Missing,
        CaddyFragmentObservation::Missing,
    );
    let error = decide(&input, &observed, &expectations(None)).unwrap_err();
    assert!(matches!(error, ReconciliationDecisionError::UnhandledDrift));
}

#[test]
fn converged_running_internal_runtime_reports_manual_intervention_instead_of_a_silent_no_op() {
    let input = input(
        DesiredRuntimeState::Running,
        Some(internal_exposure(ExposureMaterializationState::NotMaterialized)),
    );
    let observed = observation(
        running(),
        named_present(running()),
        quadlet(CANONICAL_UNIT),
        active_unit(),
        CaddyFragmentObservation::Missing,
    );
    let decision = decide(&input, &observed, &expectations(None)).unwrap();
    assert_eq!(
        decision,
        ReconciliationDecision::RequireManualIntervention(
            "runtime identity or configuration differs from persisted intent".to_owned()
        )
    );
}

#[test]
fn proven_recreated_container_repairs_runtime_identity() {
    let input = input(DesiredRuntimeState::Running, None);
    let observed = observation(
        ContainerObservation::missing(),
        named_present(running()),
        quadlet(CANONICAL_UNIT),
        SystemdUnitObservation::Missing,
        CaddyFragmentObservation::Missing,
    );
    let decision = decide(&input, &observed, &expectations(None)).unwrap();
    assert_eq!(
        decision,
        ReconciliationDecision::RepairRuntime(RuntimeIdentityRepair {
            runtime_id: RuntimeInstanceId::new(RUNTIME_ID).unwrap(),
            container_id: ContainerId::from_text(CONTAINER_ID),
        })
    );
}

#[test]
fn expected_runtime_matching_fails_for_each_wrong_identity_dimension() {
    let artifact = release().artifact;
    let expected_name = format!("pneuma-app-{DEPLOYMENT_ID}");
    let matches = |observed: &NamedContainerObservation| {
        observed.matches_expected_runtime(&expected_name, &artifact, "app", socket_addr())
    };
    let matching = |name: String| {
        recreated_container(
            name,
            artifact.reference().to_owned(),
            Some("app".to_owned()),
            Some(artifact.digest().to_owned()),
            running(),
        )
    };

    assert!(matches(&matching(format!("/pneuma-app-{DEPLOYMENT_ID}"))));
    assert!(matches(&matching(format!("pneuma-app-{DEPLOYMENT_ID}"))));

    let foreign_endpoint = loopback(30001);
    let wrong_dimensions: [(&str, NamedContainerObservation); 7] = [
        (
            "state",
            recreated_container(
                format!("/pneuma-app-{DEPLOYMENT_ID}"),
                artifact.reference().to_owned(),
                Some("app".to_owned()),
                Some(artifact.digest().to_owned()),
                ContainerObservation::not_running(ObservedRuntimeState::Stopped).unwrap(),
            ),
        ),
        ("name", matching("/pneuma-app-foreign".to_owned())),
        (
            "image",
            recreated_container(
                format!("/pneuma-app-{DEPLOYMENT_ID}"),
                format!("registry.example/team/app@sha256:{}", "b".repeat(64)),
                Some("app".to_owned()),
                Some(artifact.digest().to_owned()),
                running(),
            ),
        ),
        (
            "application label",
            recreated_container(
                format!("/pneuma-app-{DEPLOYMENT_ID}"),
                artifact.reference().to_owned(),
                Some("other".to_owned()),
                Some(artifact.digest().to_owned()),
                running(),
            ),
        ),
        (
            "digest label",
            recreated_container(
                format!("/pneuma-app-{DEPLOYMENT_ID}"),
                artifact.reference().to_owned(),
                Some("app".to_owned()),
                Some(format!("sha256:{}", "c".repeat(64))),
                running(),
            ),
        ),
        (
            "endpoint",
            recreated_container(
                format!("/pneuma-app-{DEPLOYMENT_ID}"),
                artifact.reference().to_owned(),
                Some("app".to_owned()),
                Some(artifact.digest().to_owned()),
                ContainerObservation::running(foreign_endpoint).unwrap(),
            ),
        ),
        ("missing", NamedContainerObservation::Missing),
    ];
    for (dimension, observed) in wrong_dimensions {
        assert!(
            !matches(&observed),
            "a wrong {dimension} must not count as the expected runtime"
        );
    }
}

#[test]
fn recreated_container_with_divergent_quadlet_is_not_auto_repaired() {
    let input = input(DesiredRuntimeState::Running, None);
    let observed = observation(
        ContainerObservation::missing(),
        named_present(running()),
        quadlet("divergent-unit"),
        SystemdUnitObservation::Missing,
        CaddyFragmentObservation::Missing,
    );
    let decision = decide(&input, &observed, &expectations(None)).unwrap();
    assert!(matches!(
        decision,
        ReconciliationDecision::RequireManualIntervention(reason)
            if reason == "runtime identity or configuration differs from persisted intent"
    ));
}

fn decide_for_recreated(named: NamedContainerObservation) -> ReconciliationDecision {
    let input = input(DesiredRuntimeState::Running, None);
    let observed = observation(
        ContainerObservation::missing(),
        named,
        quadlet(CANONICAL_UNIT),
        SystemdUnitObservation::Missing,
        CaddyFragmentObservation::Missing,
    );
    decide(&input, &observed, &expectations(None)).unwrap()
}

#[test]
fn recreated_container_under_a_foreign_name_is_not_silently_adopted() {
    let decision = decide_for_recreated(recreated_container(
        "/pneuma-app-foreign".to_owned(),
        release().artifact.reference().to_owned(),
        Some("app".to_owned()),
        Some(release().artifact.digest().to_owned()),
        running(),
    ));
    assert!(is_manual(&decision));
}

#[test]
fn recreated_container_from_a_foreign_image_is_not_silently_adopted() {
    let decision = decide_for_recreated(recreated_container(
        format!("/pneuma-app-{DEPLOYMENT_ID}"),
        format!("registry.example/team/app@sha256:{}", "b".repeat(64)),
        Some("app".to_owned()),
        Some(release().artifact.digest().to_owned()),
        running(),
    ));
    assert!(is_manual(&decision));
}

#[test]
fn recreated_container_without_the_application_label_is_not_silently_adopted() {
    let decision = decide_for_recreated(recreated_container(
        format!("/pneuma-app-{DEPLOYMENT_ID}"),
        release().artifact.reference().to_owned(),
        None,
        Some(release().artifact.digest().to_owned()),
        running(),
    ));
    assert!(is_manual(&decision));
}

#[test]
fn recreated_container_without_the_artifact_digest_label_is_not_silently_adopted() {
    let decision = decide_for_recreated(recreated_container(
        format!("/pneuma-app-{DEPLOYMENT_ID}"),
        release().artifact.reference().to_owned(),
        Some("app".to_owned()),
        None,
        running(),
    ));
    assert!(is_manual(&decision));
}

#[test]
fn recreated_container_on_a_foreign_endpoint_is_not_silently_adopted() {
    let foreign_endpoint = loopback(30001);
    let decision = decide_for_recreated(named_present(
        ContainerObservation::running(foreign_endpoint).unwrap(),
    ));
    assert!(is_manual(&decision));
}

#[test]
fn absent_materialization_remateralizes_and_rewrites_the_unit() {
    let input = input(DesiredRuntimeState::Running, None);
    let decision = decide(&input, &everything_missing(), &expectations(None)).unwrap();
    assert_eq!(
        decision,
        ReconciliationDecision::RematerializeRuntime(RuntimeRematerialization {
            unit_needs_write: true,
        })
    );
}

#[test]
fn canonical_quadlet_source_skips_the_unit_rewrite() {
    let input = input(DesiredRuntimeState::Running, None);
    let observed = observation(
        ContainerObservation::missing(),
        NamedContainerObservation::Missing,
        quadlet(CANONICAL_UNIT),
        SystemdUnitObservation::Present { active_state: "inactive".to_owned() },
        CaddyFragmentObservation::Missing,
    );
    let decision = decide(&input, &observed, &expectations(None)).unwrap();
    assert_eq!(
        decision,
        ReconciliationDecision::RematerializeRuntime(RuntimeRematerialization {
            unit_needs_write: false,
        })
    );
}

#[test]
fn active_generated_unit_blocks_rematerialization() {
    let input = input(DesiredRuntimeState::Running, None);
    let observed = observation(
        ContainerObservation::missing(),
        NamedContainerObservation::Missing,
        QuadletSourceObservation::Missing,
        active_unit(),
        CaddyFragmentObservation::Missing,
    );
    let decision = decide(&input, &observed, &expectations(None)).unwrap();
    assert!(is_manual(&decision));
}

#[test]
fn unknown_or_transient_generated_unit_states_block_rematerialization() {
    for active_state in ["activating", "reloading", "maintenance"] {
        let input = input(DesiredRuntimeState::Running, None);
        let observed = observation(
            ContainerObservation::missing(),
            NamedContainerObservation::Missing,
            QuadletSourceObservation::Missing,
            SystemdUnitObservation::Present { active_state: active_state.to_owned() },
            CaddyFragmentObservation::Missing,
        );
        let decision = decide(&input, &observed, &expectations(None)).unwrap();
        assert!(
            is_manual(&decision),
            "expected manual intervention for active state `{active_state}`"
        );
    }
}

#[test]
fn failed_generated_unit_permits_rematerialization() {
    let input = input(DesiredRuntimeState::Running, None);
    let observed = observation(
        ContainerObservation::missing(),
        NamedContainerObservation::Missing,
        QuadletSourceObservation::Missing,
        SystemdUnitObservation::Present { active_state: "failed".to_owned() },
        CaddyFragmentObservation::Missing,
    );
    let decision = decide(&input, &observed, &expectations(None)).unwrap();
    assert_eq!(
        decision,
        ReconciliationDecision::RematerializeRuntime(RuntimeRematerialization {
            unit_needs_write: true,
        })
    );
}

#[test]
fn diverged_exposure_requires_manual_intervention() {
    let input = input(
        DesiredRuntimeState::Stopped,
        Some(public_exposure(ExposureMaterializationState::Diverged, false)),
    );
    let observed = ReconciliationObservation {
        caddy_fragment: CaddyFragmentObservation::Present { contents: "stale".to_owned() },
        ..everything_missing()
    };
    let decision =
        decide(&input, &observed, &expectations(Some(CANONICAL_ROUTE.to_owned()))).unwrap();
    assert!(matches!(
        decision,
        ReconciliationDecision::RequireManualIntervention(reason)
            if reason == "exposure materialization diverged and requires manual intervention"
    ));
}

#[test]
fn internal_exposure_with_stale_fragment_removes_it() {
    let input = input(
        DesiredRuntimeState::Stopped,
        Some(internal_exposure(ExposureMaterializationState::Applying)),
    );
    let observed = ReconciliationObservation {
        caddy_fragment: CaddyFragmentObservation::Present { contents: "stale".to_owned() },
        ..everything_missing()
    };
    let decision = decide(&input, &observed, &expectations(None)).unwrap();
    assert_eq!(
        decision,
        ReconciliationDecision::RemoveInternalRoute {
            expected_state: ExposureMaterializationState::Applying,
        }
    );
}

#[test]
fn public_exposure_without_runtime_records_failure() {
    let mut input = input(
        DesiredRuntimeState::Running,
        Some(public_exposure(ExposureMaterializationState::NotMaterialized, false)),
    );
    input.persisted.active = None;
    let decision = decide(
        &input,
        &everything_missing(),
        &expectations(Some(CANONICAL_ROUTE.to_owned())),
    )
    .unwrap();
    assert_eq!(
        decision,
        ReconciliationDecision::RecordPublicExposureFailure(PublicExposureFailure {
            expected_state: ExposureMaterializationState::NotMaterialized,
            kind: PublicExposureFailureKind::RuntimeMissing,
        })
    );
}

#[test]
fn public_exposure_with_unhealthy_runtime_records_failure() {
    let input = input(
        DesiredRuntimeState::Running,
        Some(public_exposure(ExposureMaterializationState::Applying, false)),
    );
    let observed = observation(
        ContainerObservation::missing(),
        NamedContainerObservation::Missing,
        QuadletSourceObservation::Missing,
        active_unit(),
        CaddyFragmentObservation::Missing,
    );
    let decision =
        decide(&input, &observed, &expectations(Some(CANONICAL_ROUTE.to_owned()))).unwrap();
    assert_eq!(
        decision,
        ReconciliationDecision::RecordPublicExposureFailure(PublicExposureFailure {
            expected_state: ExposureMaterializationState::Applying,
            kind: PublicExposureFailureKind::RuntimeNotHealthy,
        })
    );
}

#[test]
fn public_exposure_with_an_active_bundle_missing_its_runtime_records_failure() {
    let mut input = input(
        DesiredRuntimeState::Running,
        Some(public_exposure(ExposureMaterializationState::NotMaterialized, false)),
    );
    input.persisted.active.as_mut().unwrap().runtime = None;
    let observed = observation(
        ContainerObservation::missing(),
        NamedContainerObservation::Missing,
        QuadletSourceObservation::Missing,
        active_unit(),
        CaddyFragmentObservation::Missing,
    );
    let decision =
        decide(&input, &observed, &expectations(Some(CANONICAL_ROUTE.to_owned()))).unwrap();
    assert_eq!(
        decision,
        ReconciliationDecision::RecordPublicExposureFailure(PublicExposureFailure {
            expected_state: ExposureMaterializationState::NotMaterialized,
            kind: PublicExposureFailureKind::RuntimeMissing,
        })
    );
}

fn decide_public(
    exposure: Exposure,
    fragment: CaddyFragmentObservation,
) -> ReconciliationDecision {
    let input = input(DesiredRuntimeState::Running, Some(exposure));
    let observed = observation(
        running(),
        named_present(running()),
        quadlet(CANONICAL_UNIT),
        active_unit(),
        fragment,
    );
    decide(&input, &observed, &expectations(Some(CANONICAL_ROUTE.to_owned()))).unwrap()
}

#[test]
fn confirmed_public_route_is_in_sync() {
    let decision = decide_public(
        public_exposure(ExposureMaterializationState::Active, true),
        CaddyFragmentObservation::Present { contents: CANONICAL_ROUTE.to_owned() },
    );
    assert_eq!(decision, ReconciliationDecision::InSync);
}

#[test]
fn drifted_public_route_materializes_the_canonical_fragment() {
    let decision = decide_public(
        public_exposure(ExposureMaterializationState::Active, true),
        CaddyFragmentObservation::Missing,
    );
    assert_eq!(
        decision,
        ReconciliationDecision::MaterializePublicRoute {
            expected_state: ExposureMaterializationState::Active,
        }
    );
}

#[test]
fn canonical_public_fragment_with_an_unconfirmed_route_materializes_it() {
    let decision = decide_public(
        public_exposure(ExposureMaterializationState::Applying, false),
        CaddyFragmentObservation::Present { contents: CANONICAL_ROUTE.to_owned() },
    );
    assert_eq!(
        decision,
        ReconciliationDecision::MaterializePublicRoute {
            expected_state: ExposureMaterializationState::Applying,
        }
    );
}

#[test]
fn divergent_public_fragment_contents_are_rematerialed_from_the_canonical_bytes() {
    let decision = decide_public(
        public_exposure(ExposureMaterializationState::Active, true),
        CaddyFragmentObservation::Present { contents: "divergent-route".to_owned() },
    );
    assert_eq!(
        decision,
        ReconciliationDecision::MaterializePublicRoute {
            expected_state: ExposureMaterializationState::Active,
        }
    );
}

#[test]
fn empty_canonical_route_fragment_is_rejected_before_any_effect() {
    let input = input(
        DesiredRuntimeState::Running,
        Some(public_exposure(ExposureMaterializationState::Active, true)),
    );
    let observed = observation(
        running(),
        named_present(running()),
        quadlet(CANONICAL_UNIT),
        active_unit(),
        CaddyFragmentObservation::Missing,
    );
    let error = decide(&input, &observed, &expectations(Some(String::new()))).unwrap_err();
    assert!(matches!(error, ReconciliationDecisionError::InvalidRouteFragment(_)));
    assert_eq!(error.message(), "route configuration has no content");
}
