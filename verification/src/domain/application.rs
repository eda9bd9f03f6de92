//! Durable application identity plus desired runtime intent.

use vstd::prelude::*;

use crate::domain::exposure::Visibility;
use crate::domain::identity::{
    is_valid_catalog_name, valid_catalog_name, ApplicationId, DeploymentId, SystemId,
};
use crate::domain::runtime::RuntimeSpecification;
use crate::text::push_str;

verus! {

/// Durable application identity and persisted runtime intent.
#[derive(Clone, Debug, PartialEq, Eq)]
pub struct Application {
    pub id: ApplicationId,
    pub system_id: Option<SystemId>,
    pub name: ApplicationName,
    pub desired_runtime_state: DesiredRuntimeState,
    pub active_deployment_id: Option<DeploymentId>,
    pub specification_version: u32,
}

/// Catalog fields of an application without its full specification.
#[derive(Clone, Debug, PartialEq, Eq)]
pub struct ApplicationSummary {
    pub id: ApplicationId,
    pub system_id: Option<SystemId>,
    pub name: ApplicationName,
    pub repository: Option<String>,
    pub default_branch: Option<String>,
    pub desired_runtime_state: DesiredRuntimeState,
    pub active_deployment_id: Option<DeploymentId>,
    pub specification_version: u32,
}

/// An application's catalog name.
#[derive(Clone, Debug, PartialEq, Eq)]
pub struct ApplicationName {
    value: String,
}

impl View for ApplicationName {
    type V = Seq<char>;

    closed spec fn view(&self) -> Seq<char> {
        self.value@
    }
}

impl ApplicationName {
    pub fn new(value: &str) -> (r: Result<Self, InvalidApplicationName>)
        ensures
            r is Ok <==> valid_catalog_name(value@),
            r matches Ok(name) ==> name@ == value@,
            r matches Err(e) ==> e.value@ == value@,
    {
        if !is_valid_catalog_name(value) {
            return Err(InvalidApplicationName { value: value.to_owned() });
        }
        Ok(ApplicationName { value: value.to_owned() })
    }

    pub fn as_str(&self) -> (r: &str)
        ensures
            r@ == self@,
    {
        self.value.as_str()
    }

    /// An identical name.
    pub fn duplicate(&self) -> (r: Self)
        ensures
            r@ == self@,
    {
        ApplicationName { value: self.value.clone() }
    }
}

/// Text outside the catalog name grammar.
#[derive(Debug, PartialEq, Eq)]
pub struct InvalidApplicationName {
    pub value: String,
}

impl InvalidApplicationName {
    pub fn message(&self) -> (r: String)
        ensures
            r@ == "invalid catalog name `"@ + self.value@ + "`"@,
    {
        let mut out = "invalid catalog name `".to_owned();
        push_str(&mut out, self.value.as_str());
        push_str(&mut out, "`");
        out
    }
}

/// The runtime state Pneuma should converge an application to.
#[derive(Clone, Copy, Debug, PartialEq, Eq)]
pub enum DesiredRuntimeState {
    Running,
    Stopped,
}

/// The application settings needed to activate a deployment.
#[derive(Clone, Debug, PartialEq, Eq)]
pub struct ApplicationDeploymentSpecification {
    pub application_id: ApplicationId,
    pub application_name: ApplicationName,
    pub runtime: RuntimeSpecification,
    pub visibility: Visibility,
}

} // verus!
