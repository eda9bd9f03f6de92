use pneuma::domain::deployment::{
    DeploymentEvent, DeploymentFailure, DeploymentFailureCode, DeploymentStatus,
};

const STATUSES: [DeploymentStatus; 6] = [
    DeploymentStatus::Pending,
    DeploymentStatus::Starting,
    DeploymentStatus::Verifying,
    DeploymentStatus::Activating,
    DeploymentStatus::Succeeded,
    DeploymentStatus::Failed,
];

const EVENTS: [DeploymentEvent; 5] = [
    DeploymentEvent::Start,
    DeploymentEvent::RuntimeRunning,
    DeploymentEvent::Verified,
    DeploymentEvent::Activated,
    DeploymentEvent::Fail,
];

#[test]
fn failure_codes_map_to_their_stable_persisted_strings() {
    let cases = [
        (DeploymentFailureCode::TestGate, "test_gate_failed"),
        (DeploymentFailureCode::RuntimeReconciliation, "runtime_reconciliation_failed"),
        (DeploymentFailureCode::PublicConfigurationMissing, "public_configuration_missing"),
        (DeploymentFailureCode::RuntimePortAllocation, "runtime_port_allocation_failed"),
        (DeploymentFailureCode::RuntimeUnitCreation, "runtime_unit_creation_failed"),
        (DeploymentFailureCode::RuntimeUnitReload, "runtime_unit_reload_failed"),
        (DeploymentFailureCode::RuntimeStart, "runtime_start_failed"),
        (DeploymentFailureCode::RuntimeResolution, "runtime_resolution_failed"),
        (DeploymentFailureCode::RuntimeObservation, "runtime_observation_failed"),
        (DeploymentFailureCode::RuntimeRegistration, "runtime_registration_failed"),
        (DeploymentFailureCode::RuntimePortPersistence, "runtime_port_persistence_failed"),
        (DeploymentFailureCode::DeploymentTransition, "deployment_transition_failed"),
        (DeploymentFailureCode::HealthCheck, "health_check_failed"),
        (DeploymentFailureCode::ExposurePreparation, "exposure_preparation_failed"),
        (DeploymentFailureCode::CaddyMaterialization, "caddy_materialization_failed"),
        (DeploymentFailureCode::ExternalHealthCheck, "external_health_check_failed"),
        (DeploymentFailureCode::CandidatePromotion, "candidate_promotion_failed"),
        (DeploymentFailureCode::OperationInterrupted, "operation_interrupted"),
    ];

    for (code, persisted) in cases {
        assert_eq!(code.as_str(), persisted);
    }
}

#[test]
fn applies_every_valid_transition() {
    let valid = [
        (DeploymentStatus::Pending, DeploymentEvent::Start, DeploymentStatus::Starting),
        (DeploymentStatus::Pending, DeploymentEvent::Fail, DeploymentStatus::Failed),
        (DeploymentStatus::Starting, DeploymentEvent::RuntimeRunning, DeploymentStatus::Verifying),
        (DeploymentStatus::Starting, DeploymentEvent::Fail, DeploymentStatus::Failed),
        (DeploymentStatus::Verifying, DeploymentEvent::Verified, DeploymentStatus::Activating),
        (DeploymentStatus::Verifying, DeploymentEvent::Activated, DeploymentStatus::Succeeded),
        (DeploymentStatus::Verifying, DeploymentEvent::Fail, DeploymentStatus::Failed),
        (DeploymentStatus::Activating, DeploymentEvent::Activated, DeploymentStatus::Succeeded),
        (DeploymentStatus::Activating, DeploymentEvent::Fail, DeploymentStatus::Failed),
    ];
    for (current, event, expected) in valid {
        assert_eq!(
            current.transition(event),
            Ok(expected),
            "{} on {}",
            current.as_str(),
            event.as_str()
        );
    }
}

#[test]
fn rejects_every_invalid_transition_with_current_and_event() {
    let valid = [
        (DeploymentStatus::Pending, DeploymentEvent::Start),
        (DeploymentStatus::Pending, DeploymentEvent::Fail),
        (DeploymentStatus::Starting, DeploymentEvent::RuntimeRunning),
        (DeploymentStatus::Starting, DeploymentEvent::Fail),
        (DeploymentStatus::Verifying, DeploymentEvent::Verified),
        (DeploymentStatus::Verifying, DeploymentEvent::Activated),
        (DeploymentStatus::Verifying, DeploymentEvent::Fail),
        (DeploymentStatus::Activating, DeploymentEvent::Activated),
        (DeploymentStatus::Activating, DeploymentEvent::Fail),
    ];
    for current in STATUSES {
        for event in EVENTS {
            if valid.contains(&(current, event)) {
                continue;
            }
            let error = match current.transition(event) {
                Err(error) => error,
                Ok(next) => panic!(
                    "{} on {} must be rejected, got {}",
                    current.as_str(),
                    event.as_str(),
                    next.as_str()
                ),
            };
            assert_eq!(error.current, current);
            assert_eq!(error.event, event);
        }
    }
}

#[test]
fn terminal_states_report_terminal_and_cannot_fail() {
    for status in STATUSES {
        let terminal = matches!(status, DeploymentStatus::Succeeded | DeploymentStatus::Failed);
        assert_eq!(status.is_terminal(), terminal, "{}", status.as_str());
        assert_eq!(status.is_nonterminal(), !terminal, "{}", status.as_str());
        assert_eq!(status.can_fail(), !terminal, "{}", status.as_str());
    }
}

#[test]
fn transition_error_names_current_state_and_event() {
    let error = match DeploymentStatus::Failed.transition(DeploymentEvent::Start) {
        Err(error) => error,
        Ok(next) => panic!("failed deployments cannot restart, got {}", next.as_str()),
    };
    assert_eq!(error.message(), "cannot apply deployment event `start` while in state `failed`");
}

#[test]
fn failures_require_trimmed_details_and_a_nonterminal_stage() {
    assert!(DeploymentFailure::validate_details(
        "health_failed",
        DeploymentStatus::Verifying,
        "candidate unhealthy"
    )
    .is_ok());
    for (code, stage, message) in [
        ("", DeploymentStatus::Starting, "message"),
        (" health_failed ", DeploymentStatus::Starting, "message"),
        ("health_failed", DeploymentStatus::Activating, ""),
        ("health_failed", DeploymentStatus::Activating, " padded "),
        ("health_failed", DeploymentStatus::Succeeded, "message"),
        ("health_failed", DeploymentStatus::Failed, "message"),
    ] {
        assert!(
            DeploymentFailure::validate_details(code, stage, message).is_err(),
            "{code:?} at {} with {message:?}",
            stage.as_str()
        );
    }
}

#[test]
fn failure_construction_rejects_a_missing_timestamp_and_keeps_valid_evidence() {
    assert!(DeploymentFailure::new(
        "health_failed",
        DeploymentStatus::Verifying,
        "candidate unhealthy",
        String::new(),
    )
    .is_err());

    let failure = DeploymentFailure::new(
        "health_failed",
        DeploymentStatus::Verifying,
        "candidate unhealthy",
        "2026-08-23 12:00:00".to_owned(),
    )
    .expect("complete evidence is valid");
    assert_eq!(failure.code, "health_failed");
    assert_eq!(failure.stage, DeploymentStatus::Verifying);
    assert_eq!(failure.message, "candidate unhealthy");
    assert_eq!(failure.finished_at, "2026-08-23 12:00:00");
}

#[test]
fn a_full_successful_run_reaches_succeeded_and_then_accepts_nothing() {
    let mut status = DeploymentStatus::Pending;
    for event in [
        DeploymentEvent::Start,
        DeploymentEvent::RuntimeRunning,
        DeploymentEvent::Verified,
        DeploymentEvent::Activated,
    ] {
        status = status.transition(event).unwrap();
    }
    assert_eq!(status, DeploymentStatus::Succeeded);
    for event in EVENTS {
        assert!(status.transition(event).is_err());
    }
}
