//! The reconciliation decision engine: classification of desired, persisted, and
//! observed facts into the next action for one application.
//!
//! `decide` applies the relied-on precedence: converged stopped state first, then
//! runtime identity repair, then rematerialization, then exposure drift, then the
//! manual-intervention fallbacks. Nothing here performs an effect.

use vstd::prelude::*;

use crate::domain::application::DesiredRuntimeState;
use crate::domain::exposure::{
    Exposure, ExposureConfigurationVersion, ExposureMaterializationState,
    InvalidExposureConfigurationVersion, Visibility,
};
use crate::domain::identity::RuntimeInstanceId;
use crate::domain::runtime::{
    observation_endpoint, observation_state, same_socket_address, ContainerId, RuntimeInstance,
};
use crate::text::str_eq;

use super::observation::{
    named_container_matches, CaddyFragmentObservation, NamedContainerObservation,
    QuadletSourceObservation, ReconciliationExpectations, ReconciliationInput,
    ReconciliationObservation, SystemdUnitObservation,
};

verus! {

/// What reconciliation should do next for one application, decided purely from
/// persisted facts, observations, and boundary expectations before any effect.
#[derive(Debug, PartialEq, Eq)]
pub enum ReconciliationDecision {
    InSync,
    RepairRuntime(RuntimeIdentityRepair),
    RematerializeRuntime(RuntimeRematerialization),
    RemoveInternalRoute { expected_state: ExposureMaterializationState },
    MaterializePublicRoute { expected_state: ExposureMaterializationState },
    RecordPublicExposureFailure(PublicExposureFailure),
    RequireManualIntervention(String),
}

/// A fully proven recreated container carrying the persisted logical identity.
#[derive(Debug, PartialEq, Eq)]
pub struct RuntimeIdentityRepair {
    pub runtime_id: RuntimeInstanceId,
    pub container_id: ContainerId,
}

/// A missing runtime materialization re-creatable purely from persisted identity;
/// `unit_needs_write` records whether the Quadlet source must be rewritten first.
#[derive(Debug, PartialEq, Eq)]
pub struct RuntimeRematerialization {
    pub unit_needs_write: bool,
}

/// Public exposure drift that is never repaired automatically.
#[derive(Debug, PartialEq, Eq)]
pub struct PublicExposureFailure {
    /// Materialization state the failure record is compare-and-set against.
    pub expected_state: ExposureMaterializationState,
    pub kind: PublicExposureFailureKind,
}

#[derive(Clone, Copy, Debug, PartialEq, Eq)]
pub enum PublicExposureFailureKind {
    RuntimeMissing,
    RuntimeNotHealthy,
}

pub open spec fn failure_kind_code(kind: PublicExposureFailureKind) -> Seq<char> {
    match kind {
        PublicExposureFailureKind::RuntimeMissing => "runtime_missing"@,
        PublicExposureFailureKind::RuntimeNotHealthy => "runtime_not_healthy"@,
    }
}

pub open spec fn failure_kind_message(kind: PublicExposureFailureKind) -> Seq<char> {
    match kind {
        PublicExposureFailureKind::RuntimeMissing => "public exposure has no active runtime"@,
        PublicExposureFailureKind::RuntimeNotHealthy =>
            "public exposure requires a confirmed healthy running runtime"@,
    }
}

impl PublicExposureFailureKind {
    /// Stable diagnostic code persisted alongside the exposure failure record.
    pub fn code(&self) -> (r: &'static str)
        ensures
            r@ == failure_kind_code(*self),
    {
        match self {
            PublicExposureFailureKind::RuntimeMissing => "runtime_missing",
            PublicExposureFailureKind::RuntimeNotHealthy => "runtime_not_healthy",
        }
    }

    pub fn message(&self) -> (r: &'static str)
        ensures
            r@ == failure_kind_message(*self),
    {
        match self {
            PublicExposureFailureKind::RuntimeMissing => "public exposure has no active runtime",
            PublicExposureFailureKind::RuntimeNotHealthy => {
                "public exposure requires a confirmed healthy running runtime"
            },
        }
    }
}

/// Drift detected after every safe rule was evaluated; reconciliation stops instead
/// of guessing.
#[derive(Debug)]
pub enum ReconciliationDecisionError {
    UnhandledDrift,
    InvalidRouteFragment(InvalidExposureConfigurationVersion),
}

impl ReconciliationDecisionError {
    pub fn message(&self) -> (r: &'static str)
        ensures
            self is UnhandledDrift ==> r@
                == "drift has no automatic repair; manual intervention is required"@,
            self is InvalidRouteFragment ==> r@ == "route configuration has no content"@,
    {
        match self {
            ReconciliationDecisionError::UnhandledDrift => {
                "drift has no automatic repair; manual intervention is required"
            },
            ReconciliationDecisionError::InvalidRouteFragment(_) => "route configuration has no content",
        }
    }
}

/// Reason given when running is desired but no safe rule explains the observed state.
pub open spec fn runtime_drift_reason() -> Seq<char> {
    "runtime identity or configuration differs from persisted intent"@
}

/// Reason given for an exposure whose materialization diverged.
pub open spec fn diverged_exposure_reason() -> Seq<char> {
    "exposure materialization diverged and requires manual intervention"@
}

pub type Outcome = Result<ReconciliationDecision, ReconciliationDecisionError>;

/// The outcome is the decision `d`.
pub open spec fn decided(r: Outcome, d: ReconciliationDecision) -> bool {
    r is Ok && r->Ok_0 == d
}

/// The decision is manual intervention for exactly `reason`.
pub open spec fn is_manual(r: Outcome, reason: Seq<char>) -> bool {
    r matches Ok(ReconciliationDecision::RequireManualIntervention(s)) && s@ == reason
}

pub open spec fn desires_running(input: ReconciliationInput) -> bool {
    input.desired.application.desired_runtime_state is Running
}

/// A stopped application with no recorded container, named container, or route.
pub open spec fn stopped_and_absent(input: ReconciliationInput, o: ReconciliationObservation) -> bool {
    &&& input.desired.application.desired_runtime_state is Stopped
    &&& observation_state(o.recorded_container) is Missing
    &&& o.named_container is Missing
    &&& o.caddy_fragment is Missing
}

/// The observed Quadlet source is exactly the boundary-rendered canonical bytes.
pub open spec fn quadlet_is_canonical(o: ReconciliationObservation, e: ReconciliationExpectations) -> bool {
    o.quadlet_source matches QuadletSourceObservation::Present { contents } && contents@
        == e.canonical_quadlet_contents@
}

/// Only the documented not-running systemd states authorize an automatic start.
pub open spec fn known_not_running(active_state: Seq<char>) -> bool {
    active_state == "inactive"@ || active_state == "failed"@
}

/// The generated unit is absent or known not to be running.
pub open spec fn unit_can_start(u: SystemdUnitObservation) -> bool {
    match u {
        SystemdUnitObservation::Missing => true,
        SystemdUnitObservation::Present { active_state } => known_not_running(active_state@),
    }
}

/// The persisted active runtime, when there is an active deployment that retains one.
pub open spec fn active_runtime(input: ReconciliationInput) -> Option<RuntimeInstance> {
    match input.persisted.active {
        Some(active) => active.runtime,
        None => None,
    }
}

/// Runtime identity repair applies: running is desired, no route and no recorded
/// container exist, and the named container is exactly the persisted active runtime
/// under a canonical Quadlet source.
pub open spec fn repair_applies(
    input: ReconciliationInput,
    o: ReconciliationObservation,
    e: ReconciliationExpectations,
) -> bool {
    &&& desires_running(input)
    &&& o.caddy_fragment is Missing
    &&& observation_state(o.recorded_container) is Missing
    &&& input.persisted.active matches Some(active) && active.runtime matches Some(runtime)
        && named_container_matches(
        o.named_container,
        e.container_name@,
        active.release.artifact.reference_view(),
        active.release.artifact.digest_view(),
        input.desired.application.name@,
        runtime.expected_endpoint@,
    )
    &&& quadlet_is_canonical(o, e)
}

/// The repair adopts the named container for the persisted runtime.
pub open spec fn is_repair_of(r: Outcome, input: ReconciliationInput, o: ReconciliationObservation) -> bool {
    &&& r matches Ok(ReconciliationDecision::RepairRuntime(repair))
    &&& active_runtime(input) matches Some(runtime) && repair.runtime_id@ == runtime.id@
    &&& o.named_container matches NamedContainerObservation::Present { id, .. } && repair.container_id@
        == id@
}

/// Rematerialization applies: running is desired, the active deployment and its
/// specification are persisted, no container exists under either identity, the
/// Quadlet source is absent or canonical, and the generated unit can start.
pub open spec fn rematerialization_applies(
    input: ReconciliationInput,
    o: ReconciliationObservation,
    e: ReconciliationExpectations,
) -> bool {
    &&& input.persisted.active is Some
    &&& input.persisted.specification is Some
    &&& desires_running(input)
    &&& observation_state(o.recorded_container) is Missing
    &&& o.named_container is Missing
    &&& (o.quadlet_source is Missing || quadlet_is_canonical(o, e))
    &&& unit_can_start(o.systemd_unit)
}

/// The exposure's confirmed route names this runtime and this configuration.
pub open spec fn route_is_confirmed(x: Exposure, runtime_id: Seq<char>, configuration: Seq<char>) -> bool {
    &&& x.active_runtime_id matches Some(id) && id@ == runtime_id
    &&& x.configuration_version matches Some(v) && v@ == configuration
}

/// The recorded container is running on the runtime's reserved endpoint.
pub open spec fn runtime_is_healthy(
    input: ReconciliationInput,
    o: ReconciliationObservation,
    runtime: RuntimeInstance,
) -> bool {
    &&& desires_running(input)
    &&& observation_state(o.recorded_container) is Running
    &&& observation_endpoint(o.recorded_container) == Some(runtime.expected_endpoint@)
}

pub open spec fn is_public_failure(
    r: Outcome,
    state: ExposureMaterializationState,
    kind: PublicExposureFailureKind,
) -> bool {
    decided(r, ReconciliationDecision::RecordPublicExposureFailure(
            PublicExposureFailure { expected_state: state, kind },
        ),)
}

/// A public route is fully converged: healthy runtime, canonical fragment on disk,
/// active materialization, and a confirmed route for this runtime and fragment.
pub open spec fn public_route_converged(
    x: Exposure,
    o: ReconciliationObservation,
    runtime: RuntimeInstance,
    fragment: Seq<char>,
) -> bool {
    &&& o.caddy_fragment matches CaddyFragmentObservation::Present { contents } && contents@
        == fragment
    &&& x.materialization_state is Active
    &&& route_is_confirmed(x, runtime.id@, fragment)
}

/// What a public exposure decides: recorded failures without a healthy runtime,
/// otherwise confirmation or materialization of the canonical fragment.
pub open spec fn public_outcome(
    x: Exposure,
    input: ReconciliationInput,
    o: ReconciliationObservation,
    e: ReconciliationExpectations,
    r: Outcome,
) -> bool {
    let state = x.materialization_state;
    match active_runtime(input) {
        None => is_public_failure(r, state, PublicExposureFailureKind::RuntimeMissing),
        Some(runtime) => if !runtime_is_healthy(input, o, runtime) {
            is_public_failure(r, state, PublicExposureFailureKind::RuntimeNotHealthy)
        } else {
            match e.canonical_route_fragment {
                None => r matches Err(ReconciliationDecisionError::UnhandledDrift),
                Some(fragment) => if fragment@.len() == 0 {
                    r matches Err(ReconciliationDecisionError::InvalidRouteFragment(_))
                } else if public_route_converged(x, o, runtime, fragment@) {
                    decided(r, ReconciliationDecision::InSync)
                } else {
                    decided(r, ReconciliationDecision::MaterializePublicRoute { expected_state: state },)
                },
            }
        },
    }
}

/// The exposure rules have something to decide: a diverged exposure, a public one,
/// or an internal one whose route fragment is still present.
pub open spec fn exposure_decides(input: ReconciliationInput, o: ReconciliationObservation) -> bool {
    input.desired.exposure matches Some(x) && (x.materialization_state is Diverged
        || x.desired_visibility is Public || o.caddy_fragment is Present)
}

/// What the exposure rules decide when `exposure_decides` holds.
pub open spec fn exposure_outcome(
    input: ReconciliationInput,
    o: ReconciliationObservation,
    e: ReconciliationExpectations,
    r: Outcome,
) -> bool {
    match input.desired.exposure {
        None => false,
        Some(x) => if x.materialization_state is Diverged {
            is_manual(r, diverged_exposure_reason())
        } else {
            match x.desired_visibility {
                Visibility::Internal => decided(r, ReconciliationDecision::RemoveInternalRoute {
                        expected_state: x.materialization_state,
                    },),
                Visibility::Public => public_outcome(x, input, o, e, r),
            }
        },
    }
}

/// A public exposure whose route is fully converged on a healthy running runtime.
pub open spec fn public_route_in_sync(
    input: ReconciliationInput,
    o: ReconciliationObservation,
    e: ReconciliationExpectations,
) -> bool {
    match (input.desired.exposure, active_runtime(input), e.canonical_route_fragment) {
        (Some(x), Some(runtime), Some(fragment)) => {
            &&& x.desired_visibility is Public
            &&& runtime_is_healthy(input, o, runtime)
            &&& public_route_converged(x, o, runtime, fragment@)
        },
        _ => false,
    }
}

/// The full decision table, in precedence order.
pub open spec fn reconciliation_outcome(
    input: ReconciliationInput,
    o: ReconciliationObservation,
    e: ReconciliationExpectations,
    r: Outcome,
) -> bool {
    if stopped_and_absent(input, o) {
        decided(r, ReconciliationDecision::InSync)
    } else if repair_applies(input, o, e) {
        is_repair_of(r, input, o)
    } else if rematerialization_applies(input, o, e) {
        decided(r, ReconciliationDecision::RematerializeRuntime(
                RuntimeRematerialization { unit_needs_write: !quadlet_is_canonical(o, e) },
            ),)
    } else if exposure_decides(input, o) {
        exposure_outcome(input, o, e, r)
    } else if desires_running(input) {
        is_manual(r, runtime_drift_reason())
    } else {
        r matches Err(ReconciliationDecisionError::UnhandledDrift)
    }
}

/// Classifies the next reconciliation action without any effect.
pub fn decide(
    input: &ReconciliationInput,
    observation: &ReconciliationObservation,
    expectations: &ReconciliationExpectations,
) -> (r: Outcome)
    ensures
        reconciliation_outcome(*input, *observation, *expectations, r),
{
    let desired_running = matches!(
        input.desired.application.desired_runtime_state,
        DesiredRuntimeState::Running
    );
    if !desired_running && observation.recorded_container.is_missing() && matches!(
        observation.named_container,
        NamedContainerObservation::Missing
    ) && matches!(observation.caddy_fragment, CaddyFragmentObservation::Missing) {
        return Ok(ReconciliationDecision::InSync);
    }
    if let Some(decision) = classify_runtime_identity_repair(input, observation, expectations) {
        return Ok(decision);
    }
    if let Some(decision) = classify_runtime_rematerialization(input, observation, expectations) {
        return Ok(decision);
    }
    match classify_exposure(input, observation, expectations) {
        Err(error) => {
            return Err(error);
        },
        Ok(Some(decision)) => {
            return Ok(decision);
        },
        Ok(None) => {},
    }
    if desired_running {
        return Ok(
            ReconciliationDecision::RequireManualIntervention(
                "runtime identity or configuration differs from persisted intent".to_owned(),
            ),
        );
    }
    Err(ReconciliationDecisionError::UnhandledDrift)
}

/// Repairs only a recreated container whose full identity matches the persisted
/// active runtime while the recorded container is gone and no route exists.
fn classify_runtime_identity_repair(
    input: &ReconciliationInput,
    observation: &ReconciliationObservation,
    expectations: &ReconciliationExpectations,
) -> (r: Option<ReconciliationDecision>)
    ensures
        r is Some <==> repair_applies(*input, *observation, *expectations),
        r matches Some(d) ==> is_repair_of(Ok(d), *input, *observation),
{
    if !matches!(input.desired.application.desired_runtime_state, DesiredRuntimeState::Running)
        || !matches!(observation.caddy_fragment, CaddyFragmentObservation::Missing)
        || !observation.recorded_container.is_missing() {
        return None;
    }
    let active = match &input.persisted.active {
        Some(active) => active,
        None => {
            return None;
        },
    };
    let runtime = match &active.runtime {
        Some(runtime) => runtime,
        None => {
            return None;
        },
    };
    let id = match &observation.named_container {
        NamedContainerObservation::Present { id, .. } => id,
        NamedContainerObservation::Missing => {
            return None;
        },
    };
    if !observation.named_container.matches_expected_runtime(
        expectations.container_name.as_str(),
        &active.release.artifact,
        input.desired.application.name.as_str(),
        runtime.expected_endpoint.socket_addr(),
    ) || !quadlet_source_is_canonical(observation, expectations) {
        return None;
    }
    Some(
        ReconciliationDecision::RepairRuntime(
            RuntimeIdentityRepair { runtime_id: runtime.id.duplicate(), container_id: id.duplicate() },
        ),
    )
}

/// Single owner of the canonicality rule: the observed Quadlet source equals the
/// boundary-rendered canonical bytes exactly.
fn quadlet_source_is_canonical(
    observation: &ReconciliationObservation,
    expectations: &ReconciliationExpectations,
) -> (r: bool)
    ensures
        r == quadlet_is_canonical(*observation, *expectations),
{
    match &observation.quadlet_source {
        QuadletSourceObservation::Present { contents } => str_eq(
            contents.as_str(),
            expectations.canonical_quadlet_contents.as_str(),
        ),
        QuadletSourceObservation::Missing => false,
    }
}

/// Rematerializes an absent runtime only when nothing contradicts a clean start from
/// the persisted identity.
fn classify_runtime_rematerialization(
    input: &ReconciliationInput,
    observation: &ReconciliationObservation,
    expectations: &ReconciliationExpectations,
) -> (r: Option<ReconciliationDecision>)
    ensures
        r is Some <==> rematerialization_applies(*input, *observation, *expectations),
        r matches Some(d) ==> d == ReconciliationDecision::RematerializeRuntime(
            RuntimeRematerialization {
                unit_needs_write: !quadlet_is_canonical(*observation, *expectations),
            },
        ),
{
    if input.persisted.active.is_none() || input.persisted.specification.is_none() {
        return None;
    }
    let quadlet_is_canonical = quadlet_source_is_canonical(observation, expectations);
    let generated_unit_can_start = match &observation.systemd_unit {
        SystemdUnitObservation::Missing => true,
        SystemdUnitObservation::Present { active_state } => known_not_running_unit_state(
            active_state.as_str(),
        ),
    };
    if !matches!(input.desired.application.desired_runtime_state, DesiredRuntimeState::Running)
        || !observation.recorded_container.is_missing() || !matches!(
        observation.named_container,
        NamedContainerObservation::Missing
    ) || (!matches!(observation.quadlet_source, QuadletSourceObservation::Missing)
        && !quadlet_is_canonical) || !generated_unit_can_start {
        return None;
    }
    Some(
        ReconciliationDecision::RematerializeRuntime(
            RuntimeRematerialization { unit_needs_write: !quadlet_is_canonical },
        ),
    )
}

/// Conservative reading of systemd's open-ended active-state vocabulary: transient
/// or unrecognized states never authorize an automatic start.
fn known_not_running_unit_state(active_state: &str) -> (r: bool)
    ensures
        r == known_not_running(active_state@),
{
    str_eq(active_state, "inactive") || str_eq(active_state, "failed")
}

/// The exposure rules: `Ok(None)` when they have nothing to decide.
fn classify_exposure(
    input: &ReconciliationInput,
    observation: &ReconciliationObservation,
    expectations: &ReconciliationExpectations,
) -> (r: Result<Option<ReconciliationDecision>, ReconciliationDecisionError>)
    ensures
        r matches Ok(None) <==> !exposure_decides(*input, *observation),
        r matches Ok(Some(d)) ==> exposure_outcome(
            *input,
            *observation,
            *expectations,
            Ok(d),
        ),
        r matches Err(err) ==> exposure_outcome(
            *input,
            *observation,
            *expectations,
            Err(err),
        ),
{
    let exposure = match &input.desired.exposure {
        Some(exposure) => exposure,
        None => {
            return Ok(None);
        },
    };
    let state = exposure.materialization_state;
    if matches!(state, ExposureMaterializationState::Diverged) {
        return Ok(
            Some(
                ReconciliationDecision::RequireManualIntervention(
                    "exposure materialization diverged and requires manual intervention".to_owned(),
                ),
            ),
        );
    }
    match exposure.desired_visibility {
        Visibility::Internal => {
            if matches!(observation.caddy_fragment, CaddyFragmentObservation::Missing) {
                return Ok(None);
            }
            Ok(Some(ReconciliationDecision::RemoveInternalRoute { expected_state: state }))
        },
        Visibility::Public => {
            match classify_public_exposure(exposure, input, observation, expectations, state) {
                Ok(decision) => Ok(Some(decision)),
                Err(error) => Err(error),
            }
        },
    }
}

/// Public routes are never auto-removed; they are confirmed, materialized, or failed
/// explicitly.
fn classify_public_exposure(
    exposure: &Exposure,
    input: &ReconciliationInput,
    observation: &ReconciliationObservation,
    expectations: &ReconciliationExpectations,
    state: ExposureMaterializationState,
) -> (r: Outcome)
    requires
        state == exposure.materialization_state,
    ensures
        public_outcome(*exposure, *input, *observation, *expectations, r),
{
    let runtime = match &input.persisted.active {
        Some(active) => match &active.runtime {
            Some(runtime) => runtime,
            None => {
                return Ok(
                    ReconciliationDecision::RecordPublicExposureFailure(
                        PublicExposureFailure {
                            expected_state: state,
                            kind: PublicExposureFailureKind::RuntimeMissing,
                        },
                    ),
                );
            },
        },
        None => {
            return Ok(
                ReconciliationDecision::RecordPublicExposureFailure(
                    PublicExposureFailure {
                        expected_state: state,
                        kind: PublicExposureFailureKind::RuntimeMissing,
                    },
                ),
            );
        },
    };
    let endpoint_matches = match observation.recorded_container.observed_endpoint() {
        Some(endpoint) => same_socket_address(endpoint, runtime.expected_endpoint.socket_addr()),
        None => false,
    };
    if !matches!(input.desired.application.desired_runtime_state, DesiredRuntimeState::Running)
        || !observation.recorded_container.is_running() || !endpoint_matches {
        return Ok(
            ReconciliationDecision::RecordPublicExposureFailure(
                PublicExposureFailure {
                    expected_state: state,
                    kind: PublicExposureFailureKind::RuntimeNotHealthy,
                },
            ),
        );
    }
    let canonical_fragment = match &expectations.canonical_route_fragment {
        Some(fragment) => fragment,
        None => {
            return Err(ReconciliationDecisionError::UnhandledDrift);
        },
    };
    let configuration_version = match ExposureConfigurationVersion::new(canonical_fragment.as_str()) {
        Ok(version) => version,
        Err(error) => {
            return Err(ReconciliationDecisionError::InvalidRouteFragment(error));
        },
    };
    let runtime_confirmed = match &exposure.active_runtime_id {
        Some(id) => str_eq(id.as_str(), runtime.id.as_str()),
        None => false,
    };
    let configuration_confirmed = match &exposure.configuration_version {
        Some(version) => str_eq(version.as_str(), configuration_version.as_str()),
        None => false,
    };
    let fragment_is_canonical = match &observation.caddy_fragment {
        CaddyFragmentObservation::Present { contents } => str_eq(
            contents.as_str(),
            canonical_fragment.as_str(),
        ),
        CaddyFragmentObservation::Missing => false,
    };
    if fragment_is_canonical && matches!(state, ExposureMaterializationState::Active)
        && runtime_confirmed && configuration_confirmed {
        return Ok(ReconciliationDecision::InSync);
    }
    Ok(ReconciliationDecision::MaterializePublicRoute { expected_state: state })
}

/// A stopped application with nothing materialized is in sync.
pub proof fn lemma_stopped_and_absent_is_in_sync(
    input: ReconciliationInput,
    o: ReconciliationObservation,
    e: ReconciliationExpectations,
    r: Outcome,
)
    requires
        reconciliation_outcome(input, o, e, r),
        stopped_and_absent(input, o),
    ensures
        decided(r, ReconciliationDecision::InSync),
{
}

/// `InSync` is reported only for a stopped application with nothing materialized, or
/// for a public route that is fully converged on a healthy running runtime; a running
/// internal application is never silently reported in sync.
pub proof fn lemma_in_sync_only_when_converged(
    input: ReconciliationInput,
    o: ReconciliationObservation,
    e: ReconciliationExpectations,
    r: Outcome,
)
    requires
        reconciliation_outcome(input, o, e, r),
        decided(r, ReconciliationDecision::InSync),
    ensures
        stopped_and_absent(input, o) || public_route_in_sync(input, o, e),
{
}

/// A running application's public route is reported in sync only when the route was
/// confirmed for the persisted active runtime itself (not for an earlier one) and for
/// the canonical fragment, that fragment is what Caddy holds, and the exposure is
/// active.
pub proof fn lemma_public_in_sync_confirms_the_active_runtime(
    input: ReconciliationInput,
    o: ReconciliationObservation,
    e: ReconciliationExpectations,
    r: Outcome,
)
    requires
        reconciliation_outcome(input, o, e, r),
        r == Ok::<ReconciliationDecision, ReconciliationDecisionError>(ReconciliationDecision::InSync),
        input.desired.application.desired_runtime_state is Running,
        input.desired.exposure matches Some(x) && x.desired_visibility is Public,
    ensures
        ({
            let x = input.desired.exposure->0;
            &&& input.persisted.active is Some
            &&& input.persisted.active->0.runtime is Some
            &&& x.active_runtime_id is Some
            &&& x.active_runtime_id->0@ == input.persisted.active->0.runtime->0.id@
            &&& x.configuration_version is Some
            &&& e.canonical_route_fragment is Some
            &&& x.configuration_version->0@ == e.canonical_route_fragment->0@
            &&& o.caddy_fragment is Present
            &&& o.caddy_fragment->contents@ == e.canonical_route_fragment->0@
            &&& x.materialization_state is Active
        }),
{
    lemma_in_sync_only_when_converged(input, o, e, r);
}

/// A public route is never removed automatically.
pub proof fn lemma_public_routes_are_never_removed(
    input: ReconciliationInput,
    o: ReconciliationObservation,
    e: ReconciliationExpectations,
    r: Outcome,
)
    requires
        reconciliation_outcome(input, o, e, r),
        input.desired.exposure matches Some(x) && x.desired_visibility is Public,
    ensures
        !(r matches Ok(ReconciliationDecision::RemoveInternalRoute { .. })),
{
}

/// A diverged exposure is never changed automatically: no route is removed,
/// materialized, or recorded as failed, and unless a runtime rule applies first the
/// decision is manual intervention naming the divergence.
pub proof fn lemma_diverged_exposure_requires_manual_intervention(
    input: ReconciliationInput,
    o: ReconciliationObservation,
    e: ReconciliationExpectations,
    r: Outcome,
)
    requires
        reconciliation_outcome(input, o, e, r),
        input.desired.exposure matches Some(x) && x.materialization_state is Diverged,
    ensures
        !(r matches Ok(ReconciliationDecision::RemoveInternalRoute { .. })),
        !(r matches Ok(ReconciliationDecision::MaterializePublicRoute { .. })),
        !(r matches Ok(ReconciliationDecision::RecordPublicExposureFailure(_))),
        !stopped_and_absent(input, o) && !repair_applies(input, o, e) && !rematerialization_applies(
            input,
            o,
            e,
        ) ==> is_manual(r, diverged_exposure_reason()),
{
}

/// Only an application whose desired state is running has its runtime repaired or
/// rematerialized.
pub proof fn lemma_runtime_changes_require_running_intent(
    input: ReconciliationInput,
    o: ReconciliationObservation,
    e: ReconciliationExpectations,
    r: Outcome,
)
    requires
        reconciliation_outcome(input, o, e, r),
        r matches Ok(ReconciliationDecision::RepairRuntime(_)) || r matches Ok(
            ReconciliationDecision::RematerializeRuntime(_),
        ),
    ensures
        desires_running(input),
{
}

/// A recreated container is adopted only when it is exactly the persisted active
/// runtime (state, name, image, labels, endpoint) under a canonical Quadlet source,
/// with the recorded container gone and no route present.
pub proof fn lemma_repair_adopts_only_the_expected_runtime(
    input: ReconciliationInput,
    o: ReconciliationObservation,
    e: ReconciliationExpectations,
    r: Outcome,
)
    requires
        reconciliation_outcome(input, o, e, r),
        r matches Ok(ReconciliationDecision::RepairRuntime(_)),
    ensures
        repair_applies(input, o, e),
        is_repair_of(r, input, o),
{
}

/// Rematerialization starts only from a clean slate (no container under either
/// identity, a generated unit that is absent or known not running) and rewrites the
/// Quadlet source exactly when it is not canonical.
pub proof fn lemma_rematerialization_starts_only_from_a_clean_slate(
    input: ReconciliationInput,
    o: ReconciliationObservation,
    e: ReconciliationExpectations,
    r: Outcome,
)
    requires
        reconciliation_outcome(input, o, e, r),
        r matches Ok(ReconciliationDecision::RematerializeRuntime(_)),
    ensures
        rematerialization_applies(input, o, e),
        r matches Ok(ReconciliationDecision::RematerializeRuntime(m)) && m.unit_needs_write
            == !quadlet_is_canonical(o, e),
{
}

/// Public exposure failures are recorded only for public exposures.
pub proof fn lemma_failures_are_recorded_only_for_public_exposure(
    input: ReconciliationInput,
    o: ReconciliationObservation,
    e: ReconciliationExpectations,
    r: Outcome,
)
    requires
        reconciliation_outcome(input, o, e, r),
        r matches Ok(ReconciliationDecision::RecordPublicExposureFailure(_)),
    ensures
        input.desired.exposure matches Some(x) && x.desired_visibility is Public
            && !(x.materialization_state is Diverged),
{
}

/// With running desired, drift no rule covers is reported as manual intervention;
/// `UnhandledDrift` then arises only for a healthy public route without a rendered
/// canonical fragment.
pub proof fn lemma_running_intent_never_leaves_drift_unhandled(
    input: ReconciliationInput,
    o: ReconciliationObservation,
    e: ReconciliationExpectations,
    r: Outcome,
)
    requires
        reconciliation_outcome(input, o, e, r),
        desires_running(input),
        r matches Err(ReconciliationDecisionError::UnhandledDrift),
    ensures
        input.desired.exposure matches Some(x) && x.desired_visibility is Public,
        e.canonical_route_fragment is None,
{
}

} // verus!
