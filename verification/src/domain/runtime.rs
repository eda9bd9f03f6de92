//! Concrete runtime materializations, loopback endpoints, and health contracts.

use vstd::prelude::*;

use crate::domain::identity::{ApplicationId, DeploymentId, RuntimeInstanceId};
use crate::text::{
    char_is_ascii_hexdigit, char_is_whitespace, chars_of, is_ascii_hexdigit, is_whitespace,
    push_str,
};

verus! {

/// Adapter-provided container text, kept apart from logical runtime identity.
#[derive(Clone, Debug, PartialEq, Eq, Hash)]
pub struct ContainerId {
    value: String,
}

impl View for ContainerId {
    type V = Seq<char>;

    closed spec fn view(&self) -> Seq<char> {
        self.value@
    }
}

/// Non-empty text made only of hexadecimal digits (either case).
pub open spec fn valid_container_id(s: Seq<char>) -> bool {
    s.len() > 0 && forall|i: int| 0 <= i < s.len() ==> is_ascii_hexdigit(#[trigger] s[i])
}

impl ContainerId {
    pub fn as_str(&self) -> (r: &str)
        ensures
            r@ == self@,
    {
        self.value.as_str()
    }

    /// Wraps container text exactly as the adapter reported it.
    pub fn from_text(value: &str) -> (r: Self)
        ensures
            r@ == value@,
    {
        ContainerId { value: value.to_owned() }
    }

    /// An identical container identity.
    pub fn duplicate(&self) -> (r: Self)
        ensures
            r@ == self@,
    {
        ContainerId { value: self.value.clone() }
    }

    /// Rejects empty or non-hexadecimal external container text.
    pub fn is_valid(value: &str) -> (r: bool)
        ensures
            r == valid_container_id(value@),
    {
        let v = chars_of(value);
        if v.len() == 0 {
            return false;
        }
        let mut i: usize = 0;
        while i < v.len()
            invariant
                v@ == value@,
                0 <= i <= v@.len(),
                forall|k: int| 0 <= k < i ==> is_ascii_hexdigit(#[trigger] v@[k]),
            decreases v@.len() - i,
        {
            if !char_is_ascii_hexdigit(v[i]) {
                return false;
            }
            i = i + 1;
        }
        true
    }
}

/// External state as last reported by the container authority. `Unknown` keeps
/// unrecognized status text verbatim instead of inventing a known state.
#[derive(Clone, Debug, PartialEq, Eq)]
pub enum ObservedRuntimeState {
    Missing,
    Created,
    Starting,
    Running,
    Stopping,
    Stopped,
    Failed,
    Unknown { status: String },
}

/// The display spelling of an observed state.
pub open spec fn observed_state_text(s: ObservedRuntimeState) -> Seq<char> {
    match s {
        ObservedRuntimeState::Missing => "missing"@,
        ObservedRuntimeState::Created => "created"@,
        ObservedRuntimeState::Starting => "starting"@,
        ObservedRuntimeState::Running => "running"@,
        ObservedRuntimeState::Stopping => "stopping"@,
        ObservedRuntimeState::Stopped => "stopped"@,
        ObservedRuntimeState::Failed => "failed"@,
        ObservedRuntimeState::Unknown { status } => status@,
    }
}

/// Two observed states are the same state (unknown states by their status text).
pub open spec fn same_observed_state(a: ObservedRuntimeState, b: ObservedRuntimeState) -> bool {
    match (a, b) {
        (ObservedRuntimeState::Unknown { status: x }, ObservedRuntimeState::Unknown { status: y }) => x@
            == y@,
        _ => a == b,
    }
}

impl ObservedRuntimeState {
    pub fn display_text(&self) -> (r: String)
        ensures
            r@ == observed_state_text(*self),
    {
        match self {
            ObservedRuntimeState::Missing => "missing".to_owned(),
            ObservedRuntimeState::Created => "created".to_owned(),
            ObservedRuntimeState::Starting => "starting".to_owned(),
            ObservedRuntimeState::Running => "running".to_owned(),
            ObservedRuntimeState::Stopping => "stopping".to_owned(),
            ObservedRuntimeState::Stopped => "stopped".to_owned(),
            ObservedRuntimeState::Failed => "failed".to_owned(),
            ObservedRuntimeState::Unknown { status } => status.clone(),
        }
    }

    /// The same state, with unknown status text copied verbatim.
    pub fn duplicate(&self) -> (r: Self)
        ensures
            same_observed_state(r, *self),
            !(self is Unknown) ==> r == *self,
            r is Unknown <==> self is Unknown,
    {
        match self {
            ObservedRuntimeState::Missing => ObservedRuntimeState::Missing,
            ObservedRuntimeState::Created => ObservedRuntimeState::Created,
            ObservedRuntimeState::Starting => ObservedRuntimeState::Starting,
            ObservedRuntimeState::Running => ObservedRuntimeState::Running,
            ObservedRuntimeState::Stopping => ObservedRuntimeState::Stopping,
            ObservedRuntimeState::Stopped => ObservedRuntimeState::Stopped,
            ObservedRuntimeState::Failed => ObservedRuntimeState::Failed,
            ObservedRuntimeState::Unknown { status } => ObservedRuntimeState::Unknown {
                status: status.clone(),
            },
        }
    }
}

/// An IP address as reported for a published container port.
#[derive(Clone, Copy, Debug, PartialEq, Eq)]
pub enum IpAddress {
    V4(u8, u8, u8, u8),
    V6(u16, u16, u16, u16, u16, u16, u16, u16),
}

/// An IP address and port.
#[derive(Clone, Copy, Debug, PartialEq, Eq)]
pub struct SocketAddress {
    pub ip: IpAddress,
    pub port: u16,
}

/// IPv4 `127.0.0.1` with a nonzero port: the only endpoint a runtime may publish.
pub open spec fn loopback_endpoint(endpoint: SocketAddress) -> bool {
    endpoint.ip == IpAddress::V4(127, 0, 0, 1) && endpoint.port != 0
}

/// Two socket addresses name the same address and port.
pub fn same_socket_address(a: SocketAddress, b: SocketAddress) -> (r: bool)
    ensures
        r == (a == b),
{
    let same_ip = match (a.ip, b.ip) {
        (IpAddress::V4(a0, a1, a2, a3), IpAddress::V4(b0, b1, b2, b3)) => a0 == b0 && a1 == b1
            && a2 == b2 && a3 == b3,
        (
            IpAddress::V6(a0, a1, a2, a3, a4, a5, a6, a7),
            IpAddress::V6(b0, b1, b2, b3, b4, b5, b6, b7),
        ) => a0 == b0 && a1 == b1 && a2 == b2 && a3 == b3 && a4 == b4 && a5 == b5 && a6 == b6 && a7
            == b7,
        _ => false,
    };
    same_ip && a.port == b.port
}

/// A runtime endpoint that is not IPv4 loopback with a nonzero port.
#[derive(Clone, Copy, Debug, PartialEq, Eq)]
pub enum RuntimeEndpointError {
    NotIpv4Loopback { endpoint: SocketAddress },
}

/// Single owner of the loopback endpoint invariant shared by expected and observed endpoints.
pub fn validate_loopback_endpoint(endpoint: SocketAddress) -> (r: Result<(), RuntimeEndpointError>)
    ensures
        r is Ok <==> loopback_endpoint(endpoint),
        r matches Err(RuntimeEndpointError::NotIpv4Loopback { endpoint: e }) ==> e == endpoint,
{
    let loopback = match endpoint.ip {
        IpAddress::V4(a, b, c, d) => a == 127 && b == 0 && c == 0 && d == 1,
        IpAddress::V6(..) => false,
    };
    if !loopback || endpoint.port == 0 {
        return Err(RuntimeEndpointError::NotIpv4Loopback { endpoint });
    }
    Ok(())
}

/// The loopback endpoint reserved for a logical runtime before external effects.
#[derive(Clone, Copy, Debug, PartialEq, Eq)]
pub struct ExpectedRuntimeEndpoint {
    endpoint: SocketAddress,
}

impl View for ExpectedRuntimeEndpoint {
    type V = SocketAddress;

    closed spec fn view(&self) -> SocketAddress {
        self.endpoint
    }
}

impl ExpectedRuntimeEndpoint {
    pub fn new(endpoint: SocketAddress) -> (r: Result<Self, RuntimeEndpointError>)
        ensures
            r is Ok <==> loopback_endpoint(endpoint),
            r matches Ok(e) ==> e@ == endpoint,
    {
        validate_loopback_endpoint(endpoint)?;
        Ok(ExpectedRuntimeEndpoint { endpoint })
    }

    pub fn socket_addr(self) -> (r: SocketAddress)
        ensures
            r == self@,
    {
        self.endpoint
    }

    /// The published loopback port.
    pub fn host_port(&self) -> (r: Result<HostPort, InvalidHostPort>)
        ensures
            r is Ok <==> self@.port != 0,
            r matches Ok(p) ==> p@ == self@.port,
    {
        HostPort::new(self.endpoint.port)
    }
}

/// One Podman observation. Only a confirmed running container carries an endpoint.
#[derive(Clone, Debug, PartialEq, Eq)]
pub enum ContainerObservation {
    Running { observed_endpoint: SocketAddress },
    NotRunning { state: ObservedRuntimeState },
}

/// The observed state an observation reports.
pub open spec fn observation_state(o: ContainerObservation) -> ObservedRuntimeState {
    match o {
        ContainerObservation::Running { .. } => ObservedRuntimeState::Running,
        ContainerObservation::NotRunning { state } => state,
    }
}

/// The endpoint an observation reports, present only when running.
pub open spec fn observation_endpoint(o: ContainerObservation) -> Option<SocketAddress> {
    match o {
        ContainerObservation::Running { observed_endpoint } => Some(observed_endpoint),
        ContainerObservation::NotRunning { .. } => None,
    }
}

impl ContainerObservation {
    /// A running observation re-proves the loopback endpoint rule.
    pub fn running(observed_endpoint: SocketAddress) -> (r: Result<Self, RuntimeEndpointError>)
        ensures
            r is Ok <==> loopback_endpoint(observed_endpoint),
            r matches Ok(o) ==> o == (ContainerObservation::Running { observed_endpoint }),
    {
        validate_loopback_endpoint(observed_endpoint)?;
        Ok(ContainerObservation::Running { observed_endpoint })
    }

    /// Rejects `Running`, so no observation can be "not running but running".
    pub fn not_running(state: ObservedRuntimeState) -> (r: Result<Self, ObservedRuntimeState>)
        ensures
            r is Ok <==> !(state is Running),
            r matches Ok(o) ==> o == (ContainerObservation::NotRunning { state }),
            r matches Err(s) ==> s == state,
    {
        if let ObservedRuntimeState::Running = state {
            return Err(state);
        }
        Ok(ContainerObservation::NotRunning { state })
    }

    pub fn missing() -> (r: Self)
        ensures
            r == (ContainerObservation::NotRunning { state: ObservedRuntimeState::Missing }),
    {
        ContainerObservation::NotRunning { state: ObservedRuntimeState::Missing }
    }

    pub fn state(&self) -> (r: ObservedRuntimeState)
        ensures
            same_observed_state(r, observation_state(*self)),
            r is Unknown <==> observation_state(*self) is Unknown,
            !(r is Unknown) ==> r == observation_state(*self),
    {
        match self {
            ContainerObservation::Running { .. } => ObservedRuntimeState::Running,
            ContainerObservation::NotRunning { state } => state.duplicate(),
        }
    }

    pub fn is_running(&self) -> (r: bool)
        ensures
            r == (observation_state(*self) is Running),
    {
        match self {
            ContainerObservation::Running { .. } => true,
            ContainerObservation::NotRunning { state } => matches!(state, ObservedRuntimeState::Running),
        }
    }

    pub fn is_missing(&self) -> (r: bool)
        ensures
            r == (observation_state(*self) is Missing),
    {
        match self {
            ContainerObservation::Running { .. } => false,
            ContainerObservation::NotRunning { state } => matches!(state, ObservedRuntimeState::Missing),
        }
    }

    pub fn observed_endpoint(&self) -> (r: Option<SocketAddress>)
        ensures
            r == observation_endpoint(*self),
    {
        match self {
            ContainerObservation::Running { observed_endpoint } => Some(*observed_endpoint),
            ContainerObservation::NotRunning { .. } => None,
        }
    }
}

/// Pneuma's own lifecycle record for a logical runtime.
#[derive(Clone, Copy, Debug, PartialEq, Eq)]
pub enum RuntimeState {
    Starting,
    Running,
    Stopped,
    Failed,
}

pub open spec fn runtime_state_text(s: RuntimeState) -> Seq<char> {
    match s {
        RuntimeState::Starting => "starting"@,
        RuntimeState::Running => "running"@,
        RuntimeState::Stopped => "stopped"@,
        RuntimeState::Failed => "failed"@,
    }
}

impl RuntimeState {
    pub fn as_str(self) -> (r: &'static str)
        ensures
            r@ == runtime_state_text(self),
    {
        match self {
            RuntimeState::Starting => "starting",
            RuntimeState::Running => "running",
            RuntimeState::Stopped => "stopped",
            RuntimeState::Failed => "failed",
        }
    }
}

/// Explicit retirement evidence; absence means the runtime remains logically active.
#[derive(Clone, Debug, PartialEq, Eq)]
pub struct RuntimeRetirement {
    pub removed_at: String,
}

/// The logical runtime materialized for a Deployment.
#[derive(Clone, Debug, PartialEq, Eq)]
pub struct RuntimeInstance {
    pub id: RuntimeInstanceId,
    pub application_id: ApplicationId,
    pub deployment_id: DeploymentId,
    pub external_runtime_id: ContainerId,
    pub state: RuntimeState,
    pub expected_endpoint: ExpectedRuntimeEndpoint,
    pub container_port: ContainerPort,
    pub observed_state: ObservedRuntimeState,
    pub observed_at: String,
    pub exit_code: Option<i32>,
    pub observation_reason: Option<String>,
    pub retirement: Option<RuntimeRetirement>,
}

/// The identity and reserved endpoint required to register a runtime.
#[derive(Clone, Debug, PartialEq, Eq)]
pub struct RuntimeRegistration {
    pub id: RuntimeInstanceId,
    pub application_id: ApplicationId,
    pub deployment_id: DeploymentId,
    pub external_runtime_id: ContainerId,
    pub expected_endpoint: ExpectedRuntimeEndpoint,
    pub container_port: ContainerPort,
}

/// The prior materialization retained during candidate replacement.
#[derive(Clone, Debug, PartialEq, Eq)]
pub struct PreviousRuntime {
    pub runtime_id: RuntimeInstanceId,
    pub deployment_id: DeploymentId,
    pub external_runtime_id: ContainerId,
}

/// The port inside the container the application listens on.
#[derive(Clone, Copy, Debug, PartialEq, Eq)]
pub struct ContainerPort {
    value: u16,
}

impl View for ContainerPort {
    type V = u16;

    closed spec fn view(&self) -> u16 {
        self.value
    }
}

impl ContainerPort {
    pub fn new(value: u16) -> (r: Result<Self, InvalidContainerPort>)
        ensures
            r is Ok <==> value != 0,
            r matches Ok(p) ==> p@ == value,
            r matches Err(e) ==> e.value == value,
    {
        if value == 0 {
            return Err(InvalidContainerPort { value });
        }
        Ok(ContainerPort { value })
    }

    pub fn get(self) -> (r: u16)
        ensures
            r == self@,
    {
        self.value
    }
}

/// A zero container port.
#[derive(Clone, Copy, Debug, PartialEq, Eq)]
pub struct InvalidContainerPort {
    pub value: u16,
}

/// The loopback host port published by a runtime container.
#[derive(Clone, Copy, Debug, PartialEq, Eq)]
pub struct HostPort {
    value: u16,
}

impl View for HostPort {
    type V = u16;

    closed spec fn view(&self) -> u16 {
        self.value
    }
}

impl HostPort {
    pub fn new(value: u16) -> (r: Result<Self, InvalidHostPort>)
        ensures
            r is Ok <==> value != 0,
            r matches Ok(p) ==> p@ == value,
            r matches Err(e) ==> e.value == value,
    {
        if value == 0 {
            return Err(InvalidHostPort { value });
        }
        Ok(HostPort { value })
    }

    pub fn get(self) -> (r: u16)
        ensures
            r == self@,
    {
        self.value
    }
}

/// A zero host port.
#[derive(Clone, Copy, Debug, PartialEq, Eq)]
pub struct InvalidHostPort {
    pub value: u16,
}

/// A health check path starts with `/` and contains no whitespace.
pub open spec fn valid_health_check_path(s: Seq<char>) -> bool {
    s.len() > 0 && s[0] == '/' && forall|i: int| 0 <= i < s.len() ==> !is_whitespace(#[trigger] s[i])
}

/// HTTP path probed to verify runtime health.
#[derive(Clone, Debug, PartialEq, Eq)]
pub struct HealthCheckPath {
    value: String,
}

impl View for HealthCheckPath {
    type V = Seq<char>;

    closed spec fn view(&self) -> Seq<char> {
        self.value@
    }
}

impl HealthCheckPath {
    pub fn new(value: &str) -> (r: Result<Self, InvalidHealthCheckPath>)
        ensures
            r is Ok <==> valid_health_check_path(value@),
            r matches Ok(p) ==> p@ == value@,
            r matches Err(e) ==> e.value@ == value@,
    {
        let v = chars_of(value);
        if v.len() == 0 || v[0] != '/' {
            return Err(InvalidHealthCheckPath { value: value.to_owned() });
        }
        let mut i: usize = 0;
        while i < v.len()
            invariant
                v@ == value@,
                0 <= i <= v@.len(),
                forall|k: int| 0 <= k < i ==> !is_whitespace(#[trigger] v@[k]),
            decreases v@.len() - i,
        {
            if char_is_whitespace(v[i]) {
                return Err(InvalidHealthCheckPath { value: value.to_owned() });
            }
            i = i + 1;
        }
        Ok(HealthCheckPath { value: value.to_owned() })
    }

    pub fn as_str(&self) -> (r: &str)
        ensures
            r@ == self@,
    {
        self.value.as_str()
    }
}

/// A path that does not start with `/` or contains whitespace.
#[derive(Debug, PartialEq, Eq)]
pub struct InvalidHealthCheckPath {
    pub value: String,
}

/// The HTTP status considered healthy, within the valid HTTP range 100..=599.
#[derive(Clone, Copy, Debug, PartialEq, Eq)]
pub struct HealthCheckStatus {
    value: u16,
}

impl View for HealthCheckStatus {
    type V = u16;

    closed spec fn view(&self) -> u16 {
        self.value
    }
}

impl HealthCheckStatus {
    pub fn new(value: u16) -> (r: Result<Self, InvalidHealthCheckStatus>)
        ensures
            r is Ok <==> 100 <= value <= 599,
            r matches Ok(s) ==> s@ == value,
            r matches Err(e) ==> e.value == value,
    {
        if value < 100 || value > 599 {
            return Err(InvalidHealthCheckStatus { value });
        }
        Ok(HealthCheckStatus { value })
    }

    pub fn get(self) -> (r: u16)
        ensures
            r == self@,
    {
        self.value
    }
}

/// A status outside 100..=599.
#[derive(Clone, Copy, Debug, PartialEq, Eq)]
pub struct InvalidHealthCheckStatus {
    pub value: u16,
}

/// The HTTP response contract used to verify a runtime.
#[derive(Clone, Debug, PartialEq, Eq)]
pub struct HealthCheckSpecification {
    path: HealthCheckPath,
    expected_status: HealthCheckStatus,
}

impl HealthCheckSpecification {
    pub closed spec fn path_view(&self) -> Seq<char> {
        self.path@
    }

    pub closed spec fn expected_status_view(&self) -> u16 {
        self.expected_status@
    }

    pub fn new(path: HealthCheckPath, expected_status: HealthCheckStatus) -> (r: Self)
        ensures
            r.path_view() == path@,
            r.expected_status_view() == expected_status@,
    {
        HealthCheckSpecification { path, expected_status }
    }

    pub fn path(&self) -> (r: &HealthCheckPath)
        ensures
            r@ == self.path_view(),
    {
        &self.path
    }

    pub fn expected_status(&self) -> (r: HealthCheckStatus)
        ensures
            r@ == self.expected_status_view(),
    {
        self.expected_status
    }
}

/// The container endpoint and health contract from the specification.
#[derive(Clone, Debug, PartialEq, Eq)]
pub struct RuntimeSpecification {
    container_port: ContainerPort,
    health_check: HealthCheckSpecification,
}

impl RuntimeSpecification {
    pub closed spec fn container_port_view(&self) -> u16 {
        self.container_port@
    }

    pub closed spec fn health_check_view(&self) -> HealthCheckSpecification {
        self.health_check
    }

    pub fn new(container_port: ContainerPort, health_check: HealthCheckSpecification) -> (r: Self)
        ensures
            r.container_port_view() == container_port@,
            r.health_check_view() == health_check,
    {
        RuntimeSpecification { container_port, health_check }
    }

    pub fn container_port(&self) -> (r: ContainerPort)
        ensures
            r@ == self.container_port_view(),
    {
        self.container_port
    }

    pub fn health_check(&self) -> (r: &HealthCheckSpecification)
        ensures
            *r == self.health_check_view(),
    {
        &self.health_check
    }
}

/// The one stable external name shared by the Quadlet unit and the Podman container.
pub open spec fn stable_runtime_name_text(application_name: Seq<char>, deployment_id: Seq<char>) -> Seq<char> {
    "pneuma-"@ + application_name + "-"@ + deployment_id
}

/// Derives the stable external name of a runtime from its application and deployment.
pub fn stable_runtime_name(application_name: &str, deployment_id: &str) -> (r: String)
    ensures
        r@ == stable_runtime_name_text(application_name@, deployment_id@),
{
    let mut out = "pneuma-".to_owned();
    push_str(&mut out, application_name);
    push_str(&mut out, "-");
    push_str(&mut out, deployment_id);
    out
}

} // verus!
