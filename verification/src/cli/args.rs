//! The command-line grammar as plain values, and its normalization into the
//! interface-neutral command vocabulary. Parsing the process arguments into these
//! values is the argument parser's work; everything after it happens here.

use vstd::prelude::*;

use crate::cli::error::CliError;
use crate::control::Command;
use crate::domain::exposure::Visibility;

verus! {

/// Top-level command groups.
#[derive(Debug, Clone, PartialEq, Eq)]
pub enum Commands {
    System { command: SystemCommands },
    App { command: AppCommands },
    Deployment { command: DeploymentCommands },
    Database { command: DatabaseCommands },
    Version,
    Doctor,
    Reconcile { application_name: String },
    Tui,
    Ci { command: CiCommands },
}

#[derive(Debug, Clone, PartialEq, Eq)]
pub enum SystemCommands {
    Create { name: String, description: Option<String> },
    List,
    Show { name: String },
}

#[derive(Debug, Clone, PartialEq, Eq)]
pub enum AppCommands {
    Import { repository: String, system: Option<String>, manifest: Option<String> },
    List,
    Deployments { application_name: String },
    Status { application_name: String },
    Stop { application_name: String },
    Start { application_name: String },
    Deploy { application_name: String, image: Option<String>, branch: Option<String> },
    Visibility { command: VisibilityCommands },
}

#[derive(Debug, Clone, PartialEq, Eq)]
pub enum VisibilityCommands {
    Update { application_name: String, visibility: VisibilityArg },
}

#[derive(Debug, Clone, Copy, PartialEq, Eq)]
pub enum VisibilityArg {
    Public,
    Internal,
}

pub open spec fn visibility_of(arg: VisibilityArg) -> Visibility {
    match arg {
        VisibilityArg::Public => Visibility::Public,
        VisibilityArg::Internal => Visibility::Internal,
    }
}

impl VisibilityArg {
    pub fn visibility(self) -> (r: Visibility)
        ensures
            r == visibility_of(self),
    {
        match self {
            VisibilityArg::Public => Visibility::Public,
            VisibilityArg::Internal => Visibility::Internal,
        }
    }
}

#[derive(Debug, Clone, PartialEq, Eq)]
pub enum DeploymentCommands {
    Rollback { application_name: String },
}

#[derive(Debug, Clone, PartialEq, Eq)]
pub enum DatabaseCommands {
    Backup { path: String },
    Restore { path: String },
}

#[derive(Debug, Clone, PartialEq, Eq)]
pub enum CiCommands {
    Dispatch,
}

/// Global settings beside the execution target.
#[derive(Debug, PartialEq, Eq)]
pub struct Invocation {
    pub verbose: bool,
    pub target: InvocationTarget,
}

/// The adapter-only paths, and every command sent to control.
#[derive(Debug, PartialEq, Eq)]
pub enum InvocationTarget {
    Control(Command),
    Version,
    Tui,
    CiDispatch,
}

/// A deploy request naming both an image and a branch; the grammar rejects it
/// before normalization.
pub open spec fn conflicting_deploy_sources(command: Commands) -> bool {
    command matches Commands::App { command: AppCommands::Deploy { image: Some(_), branch: Some(_), .. } }
}

/// The normalized target of a parsed command: `None` for a deploy without a source.
pub open spec fn normalized(command: Commands) -> Option<InvocationTarget> {
    match command {
        Commands::System { command } => Some(
            InvocationTarget::Control(
                match command {
                    SystemCommands::Create { name, description } => Command::SystemCreate {
                        name,
                        description,
                    },
                    SystemCommands::List => Command::SystemList,
                    SystemCommands::Show { name } => Command::SystemShow { name },
                },
            ),
        ),
        Commands::App { command } => match command {
            AppCommands::Import { repository, system, manifest } => Some(
                InvocationTarget::Control(
                    Command::ImportApplication {
                        repository,
                        system_name: system,
                        manifest_path: manifest,
                    },
                ),
            ),
            AppCommands::List => Some(InvocationTarget::Control(Command::ListApplications)),
            AppCommands::Deployments { application_name } => Some(
                InvocationTarget::Control(Command::ListDeployments { application_name }),
            ),
            AppCommands::Status { application_name } => Some(
                InvocationTarget::Control(Command::ApplicationStatus { application_name }),
            ),
            AppCommands::Stop { application_name } => Some(
                InvocationTarget::Control(Command::ApplicationStop { application_name }),
            ),
            AppCommands::Start { application_name } => Some(
                InvocationTarget::Control(Command::ApplicationStart { application_name }),
            ),
            AppCommands::Deploy { application_name, image, branch } => match (image, branch) {
                (Some(image_reference), None) => Some(
                    InvocationTarget::Control(
                        Command::DeployImage { application_name, image_reference },
                    ),
                ),
                (None, Some(branch)) => Some(
                    InvocationTarget::Control(Command::DeployBranch { application_name, branch }),
                ),
                _ => None,
            },
            AppCommands::Visibility { command } => match command {
                VisibilityCommands::Update { application_name, visibility } => Some(
                    InvocationTarget::Control(
                        Command::VisibilitySet {
                            application_name,
                            visibility: visibility_of(visibility),
                        },
                    ),
                ),
            },
        },
        Commands::Deployment { command } => match command {
            DeploymentCommands::Rollback { application_name } => Some(
                InvocationTarget::Control(Command::Rollback { application_name }),
            ),
        },
        Commands::Database { command } => match command {
            DatabaseCommands::Backup { path } => Some(
                InvocationTarget::Control(Command::DatabaseBackup { path }),
            ),
            DatabaseCommands::Restore { path } => Some(
                InvocationTarget::Control(Command::DatabaseRestore { path }),
            ),
        },
        Commands::Version => Some(InvocationTarget::Version),
        Commands::Doctor => Some(InvocationTarget::Control(Command::Doctor)),
        Commands::Reconcile { application_name } => Some(
            InvocationTarget::Control(Command::Reconcile { application_name }),
        ),
        Commands::Tui => Some(InvocationTarget::Tui),
        Commands::Ci { command: CiCommands::Dispatch } => Some(InvocationTarget::CiDispatch),
    }
}

/// Normalizing a visibility update keeps the application and the requested
/// visibility: asking for internal gives internal, asking for public gives public.
pub proof fn lemma_visibility_update_keeps_the_request(application_name: String, visibility: VisibilityArg)
    ensures
        normalized(
            Commands::App {
                command: AppCommands::Visibility {
                    command: VisibilityCommands::Update { application_name, visibility },
                },
            },
        ) matches Some(InvocationTarget::Control(Command::VisibilitySet { application_name: n, visibility: v }))
            && n == application_name && (v is Internal <==> visibility is Internal) && (v is Public
            <==> visibility is Public),
{
}

impl InvocationTarget {
    /// Maps parsed command input onto its execution target, moving every argument
    /// into the control command unchanged. A deploy request must name exactly one
    /// source; naming none is a usage error.
    pub fn try_from(command: Commands) -> (r: Result<Self, CliError>)
        requires
            !conflicting_deploy_sources(command),
        ensures
            match normalized(command) {
                Some(target) => r == Ok::<InvocationTarget, CliError>(target),
                None => r == Err::<InvocationTarget, CliError>(CliError::MissingDeployOption),
            },
    {
        let target = match command {
            Commands::System { command } => match command {
                SystemCommands::Create { name, description } => InvocationTarget::Control(
                    Command::SystemCreate { name, description },
                ),
                SystemCommands::List => InvocationTarget::Control(Command::SystemList),
                SystemCommands::Show { name } => InvocationTarget::Control(Command::SystemShow { name }),
            },
            Commands::App { command } => match command {
                AppCommands::Import { repository, system, manifest } => InvocationTarget::Control(
                    Command::ImportApplication {
                        repository,
                        system_name: system,
                        manifest_path: manifest,
                    },
                ),
                AppCommands::List => InvocationTarget::Control(Command::ListApplications),
                AppCommands::Deployments { application_name } => InvocationTarget::Control(
                    Command::ListDeployments { application_name },
                ),
                AppCommands::Status { application_name } => InvocationTarget::Control(
                    Command::ApplicationStatus { application_name },
                ),
                AppCommands::Stop { application_name } => InvocationTarget::Control(
                    Command::ApplicationStop { application_name },
                ),
                AppCommands::Start { application_name } => InvocationTarget::Control(
                    Command::ApplicationStart { application_name },
                ),
                AppCommands::Deploy { application_name, image, branch } => match (image, branch) {
                    (Some(image_reference), None) => InvocationTarget::Control(
                        Command::DeployImage { application_name, image_reference },
                    ),
                    (None, Some(branch)) => InvocationTarget::Control(
                        Command::DeployBranch { application_name, branch },
                    ),
                    _ => {
                        return Err(CliError::MissingDeployOption);
                    },
                },
                AppCommands::Visibility { command } => match command {
                    VisibilityCommands::Update { application_name, visibility } => {
                        InvocationTarget::Control(
                            Command::VisibilitySet {
                                application_name,
                                visibility: visibility.visibility(),
                            },
                        )
                    },
                },
            },
            Commands::Deployment { command } => match command {
                DeploymentCommands::Rollback { application_name } => InvocationTarget::Control(
                    Command::Rollback { application_name },
                ),
            },
            Commands::Database { command } => match command {
                DatabaseCommands::Backup { path } => InvocationTarget::Control(
                    Command::DatabaseBackup { path },
                ),
                DatabaseCommands::Restore { path } => InvocationTarget::Control(
                    Command::DatabaseRestore { path },
                ),
            },
            Commands::Version => InvocationTarget::Version,
            Commands::Doctor => InvocationTarget::Control(Command::Doctor),
            Commands::Reconcile { application_name } => InvocationTarget::Control(
                Command::Reconcile { application_name },
            ),
            Commands::Tui => InvocationTarget::Tui,
            Commands::Ci { command: CiCommands::Dispatch } => InvocationTarget::CiDispatch,
        };
        Ok(target)
    }
}

} // verus!
