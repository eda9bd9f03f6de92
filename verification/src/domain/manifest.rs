//! Manifest values whose invariants were checked once at the manifest boundary,
//! ready for the import workflow and free of the file's layout.

use vstd::prelude::*;

use crate::domain::application::ApplicationName;
use crate::domain::exposure::ExposureIntent;
use crate::domain::release::{DeliveryType, OciRepository};
use crate::domain::runtime::{ContainerPort, HealthCheckPath, HealthCheckStatus};
use crate::domain::system::SystemName;

verus! {

#[derive(Debug, Clone, PartialEq, Eq)]
pub struct ImportSpecification {
    pub schema_version: u32,
    pub system_name: Option<SystemName>,
    pub application_name: ApplicationName,
    pub delivery_type: DeliveryType,
    pub repository: OciRepository,
    pub container_port: ContainerPort,
    pub healthcheck_path: HealthCheckPath,
    pub expected_status: HealthCheckStatus,
    pub exposure: ExposureIntent,
}

} // verus!
