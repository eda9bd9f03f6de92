//! Typed result of one executed command.

use vstd::prelude::*;

use crate::control::diagnostics::DoctorReport;
use crate::control::outcome::{
    ApplicationCatalogEntry, DeploymentResult, ExposureChange, ReconciliationResult,
    RuntimeObservation, SystemDetails,
};
use crate::domain::application::{ApplicationName, ApplicationSummary};
use crate::domain::deployment::DeploymentHistory;
use crate::domain::system::System;

verus! {

#[derive(Debug)]
pub enum CommandResult {
    SystemCreated(System),
    Systems(Vec<System>),
    SystemDetails(SystemDetails),
    ApplicationImported(ApplicationSummary),
    Applications(Vec<ApplicationCatalogEntry>),
    ApplicationDeployments { application_name: ApplicationName, deployments: Vec<DeploymentHistory> },
    ApplicationStatus { application_name: ApplicationName, observation: RuntimeObservation },
    ApplicationStopped { application_name: ApplicationName, observation: RuntimeObservation },
    ApplicationStarted { application_name: ApplicationName, observation: RuntimeObservation },
    ApplicationDeployed { application_name: ApplicationName, deployment: DeploymentResult },
    ApplicationRolledBack { application_name: ApplicationName, deployment: DeploymentResult },
    ExposureChanged { application_name: ApplicationName, change: ExposureChange },
    Reconciled { application_name: ApplicationName, result: ReconciliationResult },
    Doctor(DoctorReport),
    DatabaseBackedUp { path: String },
    DatabaseRestored { path: String, pre_restore_path: String },
}

} // verus!
