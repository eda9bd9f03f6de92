use pneuma::create_deployment::{admit_deployment, is_complete_commit, CreateDeploymentError, DeploymentStatus};
use pneuma::git_source::{resolve_arguments, resolved_commit, ResolveCommitError};
use pneuma::domain::runtime::{IpAddress, SocketAddress};
use pneuma::deploy_internal_revision::{candidate_endpoint, RuntimeObservationFailure};
use pneuma::local_runtime::{
    container_existence, endpoint_is_observed, ContainerObservation,
    container_name, create_container_arguments, created_container, diagnostic, is_container_id,
    observed_endpoint, observed_state, remove_container_command, start_container_command,
    stop_container_command, ControlContainerError, CreateContainerError, ObserveContainerError,
    ObservedRuntimeState,
};

#[test]
fn container_identity_is_determined_by_application_and_commit() {
    let commit_sha = "e".repeat(40);

    assert_eq!(
        container_name("personal-site", &commit_sha),
        format!("pneuma-personal-site-{commit_sha}")
    );
}

#[test]
fn rejects_port_zero_before_running_podman() {
    let error = create_container_arguments("image", "personal-site", "e48c715", 0).unwrap_err();

    assert!(matches!(error, CreateContainerError::InvalidPort));
}

#[test]
fn maps_podman_states_to_explicit_runtime_states() {
    let cases = [
        ("configured", ObservedRuntimeState::Created),
        ("initialized", ObservedRuntimeState::Starting),
        ("running", ObservedRuntimeState::Running),
        ("stopping", ObservedRuntimeState::Stopping),
        ("exited", ObservedRuntimeState::Stopped),
        ("dead", ObservedRuntimeState::Failed),
        ("paused", ObservedRuntimeState::Unknown { status: "paused".to_owned() }),
    ];

    for (status, expected) in cases {
        assert_eq!(observed_state(status), expected);
    }
}

#[test]
fn candidates_are_created_with_labels_and_a_loopback_port() {
    let arguments = create_container_arguments("registry/app@sha256:x", "site", "abc", 8080).unwrap();
    assert_eq!(
        arguments,
        vec![
            "create",
            "--pull=never",
            "--name",
            "pneuma-site-abc",
            "--label",
            "io.pneuma.application=site",
            "--label",
            "io.pneuma.revision=abc",
            "--label",
            "io.pneuma.role=candidate",
            "--publish",
            "127.0.0.1::8080",
            "registry/app@sha256:x",
        ]
    );
}

#[test]
fn created_container_ids_must_be_hexadecimal() {
    let created = created_container("n".to_owned(), "  abc123\n".to_owned(), String::new()).unwrap();
    assert_eq!(created.id, "abc123");
    assert!(matches!(
        created_container("n".to_owned(), "not an id".to_owned(), String::new()),
        Err(CreateContainerError::InvalidOutput { .. })
    ));
    assert!(is_container_id("0aF"));
    assert!(!is_container_id(""));
}

#[test]
fn diagnostics_prefer_stderr_and_messages_name_the_container() {
    assert_eq!(diagnostic(" out ", "  "), "out");
    assert_eq!(diagnostic(" out ", " err "), "err");
    let error = ControlContainerError::Podman {
        operation: "starting",
        container_id: "abc".to_owned(),
        stdout: String::new(),
        stderr: "no such container\n".to_owned(),
    };
    assert_eq!(error.message(), "Podman failed while starting container `abc`: no such container");
}

#[test]
fn deployment_admission_checks_commit_application_and_activity() {
    let commit = "a".repeat(40);
    assert!(is_complete_commit(&"0".repeat(64)));
    assert!(!is_complete_commit("abc"));
    assert!(admit_deployment("app", &commit, true, false).is_ok());
    assert!(matches!(admit_deployment("app", "abc", true, false), Err(CreateDeploymentError::InvalidCommit)));
    let error = admit_deployment("app", &commit, false, false).unwrap_err();
    assert_eq!(error.message(), "application `app` was not found");
    let error = admit_deployment("app", &commit, true, true).unwrap_err();
    assert_eq!(error.message(), "application `app` already has an active deployment");
    for status in [DeploymentStatus::Pending, DeploymentStatus::VerifyingInternal, DeploymentStatus::Failed] {
        assert_eq!(DeploymentStatus::from_database(status.database_value()), Some(status));
    }
    assert_eq!(DeploymentStatus::from_database("rolled_back"), None);
}

#[test]
fn git_resolution_peels_to_a_commit_and_validates_the_output() {
    assert_eq!(
        resolve_arguments("/repo", "main"),
        vec!["-C", "/repo", "rev-parse", "--verify", "--end-of-options", "main^{commit}"]
    );
    assert_eq!(resolved_commit("/repo", "main", true, Some("abc123\n"), "").unwrap(), "abc123");
    let error = resolved_commit("/repo", "main", false, None, " fatal: bad revision \n").unwrap_err();
    assert_eq!(
        error.message(),
        "failed to resolve Git revision `main` in /repo: fatal: bad revision"
    );
    assert!(matches!(
        resolved_commit("/repo", "main", true, Some("zzz"), ""),
        Err(ResolveCommitError::Resolve { .. })
    ));
}

#[test]
fn container_controls_name_the_operation_and_end_with_the_id() {
    let start = start_container_command("abc123").unwrap();
    assert_eq!(start.operation, "starting");
    assert_eq!(start.arguments, vec!["start".to_owned(), "abc123".to_owned()]);

    let stop = stop_container_command("abc123").unwrap();
    assert_eq!(stop.operation, "stopping");
    assert_eq!(stop.arguments, vec!["stop".to_owned(), "abc123".to_owned()]);

    let remove = remove_container_command("abc123").unwrap();
    assert_eq!(remove.operation, "removing");
    assert_eq!(
        remove.arguments,
        vec!["container".to_owned(), "rm".to_owned(), "--force".to_owned(), "abc123".to_owned()]
    );

    for id in ["", "not-hex", "abc 123"] {
        assert!(matches!(start_container_command(id), Err(ControlContainerError::InvalidContainerId)));
        assert!(matches!(stop_container_command(id), Err(ControlContainerError::InvalidContainerId)));
        assert!(matches!(remove_container_command(id), Err(ControlContainerError::InvalidContainerId)));
    }
}

#[test]
fn published_endpoints_must_be_ipv4_loopback() {
    let loopback = |port: u16| SocketAddress { ip: IpAddress::V4(127, 0, 0, 1), port };

    assert_eq!(observed_endpoint("abc", "127.0.0.1:43125\n").unwrap(), loopback(43125));
    assert_eq!(observed_endpoint("abc", "  127.0.0.1:8080\r\n[::]:8080\n").unwrap(), loopback(8080));
    assert_eq!(observed_endpoint("abc", "127.0.0.1:00080").unwrap(), loopback(80));
    assert_eq!(observed_endpoint("abc", "127.0.0.1:65535").unwrap(), loopback(65535));

    for output in [
        "",
        "0.0.0.0:43125",
        "127.0.0.1:65536",
        "127.0.0.1:",
        "127.0.0.01:80",
        "[::1]:8080",
        "127.0.0.1:80x",
        "localhost:80",
    ] {
        match observed_endpoint("abc", &format!("{output}\n")) {
            Err(ObserveContainerError::InvalidEndpoint { container_id, output: reported }) => {
                assert_eq!(container_id, "abc");
                assert_eq!(reported, output.trim());
            }
            other => panic!("{output:?} gave {other:?}"),
        }
    }
}

#[test]
fn exit_status_one_means_the_container_is_missing() {
    assert!(!container_existence("abc", Some(1), false, String::new(), String::new()).unwrap());
    assert!(container_existence("abc", Some(0), true, String::new(), String::new()).unwrap());
    match container_existence("abc", Some(125), false, "out".to_owned(), "boom".to_owned()) {
        Err(error @ ObserveContainerError::Podman { .. }) => {
            assert_eq!(error.message(), "Podman failed while checking for container `abc`: boom");
        }
        other => panic!("unexpected {other:?}"),
    }
    assert!(matches!(
        container_existence("abc", None, false, String::new(), String::new()),
        Err(ObserveContainerError::Podman { operation: "checking for", .. })
    ));
}

#[test]
fn only_running_containers_have_their_endpoint_observed() {
    assert!(endpoint_is_observed(&ObservedRuntimeState::Running));
    for state in [
        ObservedRuntimeState::Missing,
        ObservedRuntimeState::Created,
        ObservedRuntimeState::Stopped,
        ObservedRuntimeState::Unknown { status: "paused".to_owned() },
    ] {
        assert!(!endpoint_is_observed(&state));
    }
}

#[test]
fn a_candidate_registers_only_when_running_with_an_endpoint() {
    let endpoint = SocketAddress { ip: IpAddress::V4(127, 0, 0, 1), port: 43125 };
    let running = ContainerObservation { state: ObservedRuntimeState::Running, endpoint: Some(endpoint) };
    assert_eq!(candidate_endpoint(running).unwrap(), endpoint);

    let no_endpoint = ContainerObservation { state: ObservedRuntimeState::Running, endpoint: None };
    let error = candidate_endpoint(no_endpoint).unwrap_err();
    assert_eq!(error, RuntimeObservationFailure::MissingEndpoint);
    assert_eq!(error.message(), "running runtime has no loopback endpoint");

    let stopped = ContainerObservation { state: ObservedRuntimeState::Stopped, endpoint: None };
    let error = candidate_endpoint(stopped).unwrap_err();
    assert_eq!(error.message(), "expected runtime to be Running, got Stopped");

    let unknown = ContainerObservation {
        state: ObservedRuntimeState::Unknown { status: "paused".to_owned() },
        endpoint: None,
    };
    assert_eq!(
        candidate_endpoint(unknown).unwrap_err().message(),
        "expected runtime to be Running, got Unknown { status: \"paused\" }"
    );
}

#[test]
fn a_nonzero_port_always_yields_create_arguments() {
    let arguments = create_container_arguments("image", "site", "e48c715", 8080).unwrap();
    assert_eq!(arguments.last().unwrap(), "image");
    assert_eq!(arguments[11], "127.0.0.1::8080");
}
