//! Interface-neutral command vocabulary. The CLI maps parsed arguments onto these
//! commands; other adapters issue the same commands.

use vstd::prelude::*;

use crate::domain::exposure::Visibility;

verus! {

#[derive(Debug, Clone, PartialEq, Eq)]
pub enum Command {
    SystemCreate { name: String, description: Option<String> },
    SystemList,
    SystemShow { name: String },
    ImportApplication {
        repository: String,
        system_name: Option<String>,
        manifest_path: Option<String>,
    },
    ListApplications,
    ListDeployments { application_name: String },
    ApplicationStatus { application_name: String },
    ApplicationStop { application_name: String },
    ApplicationStart { application_name: String },
    DeployImage { application_name: String, image_reference: String },
    DeployBranch { application_name: String, branch: String },
    Rollback { application_name: String },
    VisibilitySet { application_name: String, visibility: Visibility },
    Reconcile { application_name: String },
    Doctor,
    DatabaseBackup { path: String },
    DatabaseRestore { path: String },
}

} // verus!
