//! Presentation-level failure classes, their stable exit codes, and the CLI
//! failures whose causes the library defines.

use vstd::prelude::*;

use crate::domain::deployment::DeploymentFailureCode;
use crate::domain::release::InvalidOciArtifact;
use crate::domain::system::InvalidSystemName;
use crate::text::push_str;

verus! {

/// Presentation-level class of a CLI failure, mapped to one process exit code.
#[derive(Debug, Clone, Copy, PartialEq, Eq)]
pub enum CliErrorClass {
    /// Persistence, database, or internal failures without a more specific cause.
    Failure,
    /// The command input itself was rejected before any effect.
    Usage,
    /// A named resource required by the command does not exist.
    NotFound,
    /// Persisted state does not allow the operation or changed concurrently.
    Conflict,
    /// Git, OCI, Podman, systemd, Caddy, or health-check integration failed.
    External,
}

pub open spec fn class_exit_code(class: CliErrorClass) -> u8 {
    match class {
        CliErrorClass::Failure => 1,
        CliErrorClass::Usage => 2,
        CliErrorClass::NotFound => 3,
        CliErrorClass::Conflict => 4,
        CliErrorClass::External => 5,
    }
}

impl CliErrorClass {
    pub fn exit_code(self) -> (r: u8)
        ensures
            r == class_exit_code(self),
    {
        match self {
            CliErrorClass::Failure => 1,
            CliErrorClass::Usage => 2,
            CliErrorClass::NotFound => 3,
            CliErrorClass::Conflict => 4,
            CliErrorClass::External => 5,
        }
    }
}

/// Every failure class exits with its own nonzero code, so the code alone names the
/// class.
pub proof fn lemma_exit_codes_identify_classes(a: CliErrorClass, b: CliErrorClass)
    ensures
        1 <= class_exit_code(a) <= 5,
        class_exit_code(a) == class_exit_code(b) ==> a == b,
{
}

/// Failure stages that surfaced through Podman, systemd, Caddy, or a health probe.
pub open spec fn external_failure_stage(code: DeploymentFailureCode) -> bool {
    match code {
        DeploymentFailureCode::RuntimeUnitCreation | DeploymentFailureCode::RuntimeUnitReload
        | DeploymentFailureCode::RuntimeStart | DeploymentFailureCode::RuntimeResolution
        | DeploymentFailureCode::RuntimeObservation | DeploymentFailureCode::HealthCheck
        | DeploymentFailureCode::CaddyMaterialization
        | DeploymentFailureCode::ExternalHealthCheck => true,
        _ => false,
    }
}

/// Maps each persisted failure stage onto its exit class: external stages are
/// `External`, every orchestration or persistence stage is a generic `Failure`.
pub fn classify_deployment_failure_code(code: DeploymentFailureCode) -> (r: CliErrorClass)
    ensures
        r == (if external_failure_stage(code) {
            CliErrorClass::External
        } else {
            CliErrorClass::Failure
        }),
{
    match code {
        DeploymentFailureCode::RuntimeUnitCreation | DeploymentFailureCode::RuntimeUnitReload
        | DeploymentFailureCode::RuntimeStart | DeploymentFailureCode::RuntimeResolution
        | DeploymentFailureCode::RuntimeObservation | DeploymentFailureCode::HealthCheck
        | DeploymentFailureCode::CaddyMaterialization
        | DeploymentFailureCode::ExternalHealthCheck => CliErrorClass::External,
        DeploymentFailureCode::TestGate | DeploymentFailureCode::RuntimeReconciliation
        | DeploymentFailureCode::PublicConfigurationMissing
        | DeploymentFailureCode::RuntimePortAllocation | DeploymentFailureCode::RuntimeRegistration
        | DeploymentFailureCode::RuntimePortPersistence
        | DeploymentFailureCode::DeploymentTransition | DeploymentFailureCode::ExposurePreparation
        | DeploymentFailureCode::CandidatePromotion
        | DeploymentFailureCode::OperationInterrupted => CliErrorClass::Failure,
    }
}

/// CLI failures whose causes are library values.
#[derive(Debug)]
pub enum CliError {
    InvalidSystemName { source: InvalidSystemName },
    ApplicationNotFound { application_name: String },
    InvalidOciArtifact { source: InvalidOciArtifact },
    Doctor,
    MissingDeployOption,
    TuiRequiresTerminal,
    TuiTerminal { message: String },
}

pub open spec fn cli_error_class(error: CliError) -> CliErrorClass {
    match error {
        CliError::InvalidSystemName { .. } | CliError::InvalidOciArtifact { .. }
        | CliError::MissingDeployOption | CliError::TuiRequiresTerminal => CliErrorClass::Usage,
        CliError::ApplicationNotFound { .. } => CliErrorClass::NotFound,
        CliError::Doctor | CliError::TuiTerminal { .. } => CliErrorClass::Failure,
    }
}

pub open spec fn cli_error_message(error: CliError) -> Seq<char> {
    match error {
        CliError::InvalidSystemName { source } => "invalid system name `"@ + source.value@ + "`"@,
        CliError::ApplicationNotFound { application_name } => "application `"@ + application_name@
            + "` was not found"@,
        CliError::InvalidOciArtifact { source } => "image reference `"@ + source.reference@
            + "` must be <repository>@sha256:<64 lowercase hexadecimal characters>"@,
        CliError::Doctor => "one or more diagnostic checks failed"@,
        CliError::MissingDeployOption => "either --image or --branch must be specified"@,
        CliError::TuiRequiresTerminal =>
            "the terminal interface requires interactive stdin and stdout"@,
        CliError::TuiTerminal { message } => "terminal interface failed: "@ + message@,
    }
}

impl CliError {
    /// Classifies the failure for message and exit-code presentation.
    pub fn class(&self) -> (r: CliErrorClass)
        ensures
            r == cli_error_class(*self),
    {
        match self {
            CliError::InvalidSystemName { .. } | CliError::InvalidOciArtifact { .. }
            | CliError::MissingDeployOption | CliError::TuiRequiresTerminal => CliErrorClass::Usage,
            CliError::ApplicationNotFound { .. } => CliErrorClass::NotFound,
            CliError::Doctor | CliError::TuiTerminal { .. } => CliErrorClass::Failure,
        }
    }

    pub fn message(&self) -> (r: String)
        ensures
            r@ == cli_error_message(*self),
    {
        match self {
            CliError::InvalidSystemName { source } => source.message(),
            CliError::ApplicationNotFound { application_name } => {
                let mut out = "application `".to_owned();
                push_str(&mut out, application_name.as_str());
                push_str(&mut out, "` was not found");
                out
            },
            CliError::InvalidOciArtifact { source } => source.message(),
            CliError::Doctor => "one or more diagnostic checks failed".to_owned(),
            CliError::MissingDeployOption => "either --image or --branch must be specified".to_owned(),
            CliError::TuiRequiresTerminal => {
                "the terminal interface requires interactive stdin and stdout".to_owned()
            },
            CliError::TuiTerminal { message } => {
                let mut out = "terminal interface failed: ".to_owned();
                push_str(&mut out, message.as_str());
                out
            },
        }
    }
}

} // verus!
