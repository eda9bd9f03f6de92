use pneuma::domain::identity::{ApplicationId, DeploymentId};
use pneuma::domain::release::{DeliverySpecification, DeliveryType, OciArtifact, OciRepository};
use pneuma::domain::runtime::{
    stable_runtime_name, ContainerId, ContainerObservation, ContainerPort, ExpectedRuntimeEndpoint,
    HealthCheckPath, HealthCheckStatus, IpAddress, ObservedRuntimeState, SocketAddress,
};

fn artifact(repository: &str) -> OciArtifact {
    OciArtifact::new(
        repository,
        "sha256:0123456789abcdef0123456789abcdef0123456789abcdef0123456789abcdef",
    )
    .expect("test artifact is valid")
}

fn delivery(repository: &str) -> DeliverySpecification {
    DeliverySpecification::new(
        DeliveryType::Oci,
        OciRepository::new(repository).expect("test repository is valid"),
    )
}

fn loopback(port: u16) -> SocketAddress {
    SocketAddress { ip: IpAddress::V4(127, 0, 0, 1), port }
}

#[test]
fn permits_the_exact_configured_repository() {
    assert!(delivery("registry.example/app").permits(&artifact("registry.example/app")));
}

#[test]
fn rejects_foreign_and_prefix_repositories() {
    let allowed = delivery("registry.example/app");
    assert!(!allowed.permits(&artifact("registry.example/other")));
    assert!(!allowed.permits(&artifact("registry.example/app/subpath")));
    assert!(!allowed.permits(&artifact("other.example/app")));
}

#[test]
fn parsed_references_split_into_repository_and_digest() {
    let digest = format!("sha256:{}", "a".repeat(64));
    let reference = format!("registry.example/team/app@{digest}");
    let parsed = OciArtifact::parse(&reference).unwrap();
    assert_eq!(parsed.reference(), reference);
    assert_eq!(parsed.repository(), "registry.example/team/app");
    assert_eq!(parsed.digest(), digest);
    assert!(OciArtifact::parse("registry.example/team/app:latest").is_err());
    let error = OciArtifact::parse("app:latest").unwrap_err();
    assert_eq!(
        error.message(),
        "image reference `app:latest` must be <repository>@sha256:<64 lowercase hexadecimal characters>"
    );
}

#[test]
fn container_identity_text_must_be_nonempty_hexadecimal() {
    assert!(ContainerId::is_valid("0123abcdefABCDEF"));
    assert!(!ContainerId::is_valid(""));
    assert!(!ContainerId::is_valid("container id"));
    assert!(!ContainerId::is_valid("0123 abcdef"));
}

#[test]
fn expected_endpoints_are_ipv4_loopback_with_a_port() {
    assert!(ExpectedRuntimeEndpoint::new(loopback(30000)).is_ok());
    for invalid in [
        SocketAddress { ip: IpAddress::V4(10, 0, 0, 5), port: 30000 },
        SocketAddress { ip: IpAddress::V4(0, 0, 0, 0), port: 30000 },
        SocketAddress { ip: IpAddress::V6(0, 0, 0, 0, 0, 0, 0, 1), port: 30000 },
        loopback(0),
    ] {
        assert!(ExpectedRuntimeEndpoint::new(invalid).is_err(), "{invalid:?}");
    }
}

#[test]
fn stable_names_couple_the_application_and_deployment_identities() {
    assert_eq!(
        stable_runtime_name(
            ApplicationId::new("11111111111111111111111111111111").unwrap().as_str(),
            DeploymentId::new("22222222222222222222222222222222").unwrap().as_str()
        ),
        "pneuma-11111111111111111111111111111111-22222222222222222222222222222222"
    );
}

#[test]
fn observations_keep_running_and_not_running_apart() {
    assert!(ContainerObservation::not_running(ObservedRuntimeState::Running).is_err());
    let running = ContainerObservation::running(loopback(30000)).unwrap();
    assert!(running.is_running());
    assert_eq!(running.observed_endpoint(), Some(loopback(30000)));
    let missing = ContainerObservation::missing();
    assert!(missing.is_missing());
    assert_eq!(missing.observed_endpoint(), None);
    assert!(ContainerObservation::running(loopback(0)).is_err());
}

#[test]
fn runtime_values_reject_out_of_range_input() {
    assert!(ContainerPort::new(0).is_err());
    assert_eq!(ContainerPort::new(8080).unwrap().get(), 8080);
    assert!(HealthCheckPath::new("healthz").is_err());
    assert!(HealthCheckPath::new("/health z").is_err());
    assert_eq!(HealthCheckPath::new("/healthz").unwrap().as_str(), "/healthz");
    assert!(HealthCheckStatus::new(99).is_err());
    assert!(HealthCheckStatus::new(600).is_err());
    assert_eq!(HealthCheckStatus::new(599).unwrap().get(), 599);
}
