//! Observed and expected facts that reconciliation compares: what Podman,
//! systemd, and Caddy expose right now, grouped in `ReconciliationObservation`,
//! and what SQLite records as desired intent, persisted bookkeeping, and
//! boundary-rendered expectations.

use vstd::prelude::*;

use crate::domain::application::{Application, ApplicationDeploymentSpecification};
use crate::domain::deployment::Deployment;
use crate::domain::exposure::Exposure;
use crate::domain::release::{OciArtifact, Release};
use crate::domain::runtime::{
    observation_endpoint, observation_state, same_socket_address, ContainerId,
    ContainerObservation, RuntimeInstance, SocketAddress,
};
use crate::text::{chars_of, range_eq, skip_leading, str_eq, trim_leading};

verus! {

/// Desired intent as recorded in SQLite: which runtime state and route to converge to.
#[derive(Debug)]
pub struct DesiredState {
    pub application: Application,
    pub exposure: Option<Exposure>,
}

/// Persisted bookkeeping: coordination and confirmation facts that describe
/// workflow state rather than requested intent.
#[derive(Debug)]
pub struct PersistedState {
    pub blocking_deployment: Option<Deployment>,
    pub active: Option<ActiveRuntime>,
    pub specification: Option<ApplicationDeploymentSpecification>,
}

/// SQLite-produced facts grouped by origin, so intent stays distinguishable from
/// persisted bookkeeping.
#[derive(Debug)]
pub struct ReconciliationInput {
    pub desired: DesiredState,
    pub persisted: PersistedState,
}

/// The active logical deployment with its immutable artifact and retained runtime identity.
#[derive(Debug)]
pub struct ActiveRuntime {
    pub deployment: Deployment,
    pub release: Release,
    pub runtime: Option<RuntimeInstance>,
}

/// A missing stable container name, or a present materialization with inspectable identity.
#[derive(Clone, Debug, PartialEq, Eq)]
pub enum NamedContainerObservation {
    Missing,
    Present {
        id: ContainerId,
        name: String,
        image_reference: String,
        application_label: Option<String>,
        image_digest_label: Option<String>,
        observation: ContainerObservation,
    },
}

/// An optional label holds exactly `expected`.
pub open spec fn label_is(label: Option<String>, expected: Seq<char>) -> bool {
    label matches Some(l) && l@ == expected
}

/// The observed named container is exactly the expected runtime: running, under the
/// expected name (a leading `/` as Podman reports it is ignored), from the release
/// artifact, labelled with the application and the artifact digest, and published on
/// the reserved endpoint.
pub open spec fn named_container_matches(
    observed: NamedContainerObservation,
    expected_name: Seq<char>,
    artifact_reference: Seq<char>,
    artifact_digest: Seq<char>,
    application_name: Seq<char>,
    expected_endpoint: SocketAddress,
) -> bool {
    match observed {
        NamedContainerObservation::Missing => false,
        NamedContainerObservation::Present {
            name,
            image_reference,
            application_label,
            image_digest_label,
            observation,
            ..
        } => {
            &&& observation_state(observation) is Running
            &&& trim_leading(name@, '/') == expected_name
            &&& image_reference@ == artifact_reference
            &&& label_is(application_label, application_name)
            &&& label_is(image_digest_label, artifact_digest)
            &&& observation_endpoint(observation) == Some(expected_endpoint)
        },
    }
}

/// `label_is` for an executable label.
fn label_matches(label: &Option<String>, expected: &str) -> (r: bool)
    ensures
        r == label_is(*label, expected@),
{
    match label {
        Some(l) => str_eq(l.as_str(), expected),
        None => false,
    }
}

/// `name` with its leading `/` characters removed equals `expected`.
fn name_matches(name: &str, expected: &str) -> (r: bool)
    ensures
        r == (trim_leading(name@, '/') == expected@),
{
    let v = chars_of(name);
    let e = chars_of(expected);
    let start = skip_leading(&v, '/');
    let r = range_eq(&v, start, v.len(), &e, 0, e.len());
    assert(e@.subrange(0, e@.len() as int) == e@);
    r
}

impl NamedContainerObservation {
    /// Single owner of the rule deciding whether an observed named container is exactly
    /// the persisted runtime; planning and post-effect confirmation both ask it.
    pub fn matches_expected_runtime(
        &self,
        expected_name: &str,
        artifact: &OciArtifact,
        application_name: &str,
        expected_endpoint: SocketAddress,
    ) -> (r: bool)
        ensures
            r == named_container_matches(
                *self,
                expected_name@,
                artifact.reference_view(),
                artifact.digest_view(),
                application_name@,
                expected_endpoint,
            ),
    {
        match self {
            NamedContainerObservation::Missing => false,
            NamedContainerObservation::Present {
                name,
                image_reference,
                application_label,
                image_digest_label,
                observation,
                ..
            } => {
                if !observation.is_running() {
                    return false;
                }
                if !name_matches(name.as_str(), expected_name) {
                    return false;
                }
                if !str_eq(image_reference.as_str(), artifact.reference()) {
                    return false;
                }
                if !label_matches(application_label, application_name) {
                    return false;
                }
                if !label_matches(image_digest_label, artifact.digest()) {
                    return false;
                }
                match observation.observed_endpoint() {
                    Some(endpoint) => same_socket_address(endpoint, expected_endpoint),
                    None => false,
                }
            },
        }
    }
}

/// The Quadlet source as found on disk, kept verbatim for the canonicality check.
#[derive(Clone, Debug, PartialEq, Eq)]
pub enum QuadletSourceObservation {
    Missing,
    Present { contents: String },
}

/// systemd's generated-unit facts; an absent unit is not an operational failure.
#[derive(Clone, Debug, PartialEq, Eq)]
pub enum SystemdUnitObservation {
    Missing,
    Present { active_state: String },
}

/// The Caddy fragment as found on disk, or its absence.
#[derive(Clone, Debug, PartialEq, Eq)]
pub enum CaddyFragmentObservation {
    Missing,
    Present { contents: String },
}

/// The read-only external facts observed from each authority: Podman (recorded and
/// named containers), systemd/Quadlet (unit source and generated unit), and Caddy
/// (materialized fragment).
#[derive(Clone, Debug, PartialEq, Eq)]
pub struct ReconciliationObservation {
    pub recorded_container: ContainerObservation,
    pub named_container: NamedContainerObservation,
    pub quadlet_source: QuadletSourceObservation,
    pub systemd_unit: SystemdUnitObservation,
    pub caddy_fragment: CaddyFragmentObservation,
}

/// Boundary-rendered representations that observed files must match to count as
/// canonical; `canonical_route_fragment` is present only when a public exposure names
/// a domain and an active runtime endpoint exists.
#[derive(Debug)]
pub struct ReconciliationExpectations {
    pub container_name: String,
    pub canonical_quadlet_contents: String,
    pub canonical_route_fragment: Option<String>,
}

} // verus!
