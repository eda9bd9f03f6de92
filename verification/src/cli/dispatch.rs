//! Routing decisions of the command-line front end: which commands run with
//! deployment progress, what they report as requested input, and which verbose
//! lines announce a command before it runs.

use vstd::prelude::*;

use crate::cli::error::CliError;
use crate::cli::output::{
    application_list, application_list_text, application_started, application_started_text,
    application_status, application_status_text, application_stopped, application_stopped_text,
    created_system, database_backup, database_restore, deployed, deployed_text,
    deployment_history, deployment_history_text, doctor_report, doctor_report_text,
    imported_application, imported_application_text, reconciliation_result, reconciliation_text,
    report_healthy, rollback_result, rollback_text, system_details, system_details_text,
    system_list, system_list_text, visibility_change, visibility_change_message, visibility_label,
    visibility_text,
};
use crate::control::{Command, CommandResult};
use crate::text::push_str;

verus! {

/// The deployment requests that use event-capable execution.
#[derive(Debug, Clone, PartialEq, Eq)]
pub enum DeploymentRequest {
    Image(String),
    Branch(String),
    Rollback,
}

pub open spec fn requested_deployment(command: Command) -> Option<DeploymentRequest> {
    match command {
        Command::DeployImage { image_reference, .. } => Some(DeploymentRequest::Image(image_reference)),
        Command::DeployBranch { branch, .. } => Some(DeploymentRequest::Branch(branch)),
        Command::Rollback { .. } => Some(DeploymentRequest::Rollback),
        _ => None,
    }
}

/// Classifies the commands that deploy: image and branch deployments and rollbacks.
pub fn deployment_request(command: &Command) -> (r: Option<DeploymentRequest>)
    ensures
        r == requested_deployment(*command),
{
    match command {
        Command::DeployImage { image_reference, .. } => Some(
            DeploymentRequest::Image(image_reference.clone()),
        ),
        Command::DeployBranch { branch, .. } => Some(DeploymentRequest::Branch(branch.clone())),
        Command::Rollback { .. } => Some(DeploymentRequest::Rollback),
        _ => None,
    }
}

/// The input a deployment request names: its kind and value; a rollback names none.
pub fn requested_input(request: &DeploymentRequest) -> (r: Option<(&'static str, &str)>)
    ensures
        match *request {
            DeploymentRequest::Image(reference) => r matches Some(p) && p.0@ == "image"@ && p.1@
                == reference@,
            DeploymentRequest::Branch(branch) => r matches Some(p) && p.0@ == "branch"@ && p.1@
                == branch@,
            DeploymentRequest::Rollback => r is None,
        },
{
    match request {
        DeploymentRequest::Image(reference) => Some(("image", reference.as_str())),
        DeploymentRequest::Branch(branch) => Some(("branch", branch.as_str())),
        DeploymentRequest::Rollback => None,
    }
}

/// Commands that announce the database path in verbose mode: all but the
/// diagnostic and backup commands, which report their own paths.
pub fn announces_database_path(command: &Command) -> (r: bool)
    ensures
        r == !(*command is Doctor || *command is DatabaseBackup || *command is DatabaseRestore),
{
    !matches!(command, Command::Doctor | Command::DatabaseBackup { .. } | Command::DatabaseRestore { .. })
}

pub open spec fn resolve_line(application_name: Seq<char>) -> Seq<char> {
    "resolve application by name: "@ + application_name
}

/// The verbose lines that announce a command before it runs.
pub open spec fn command_start_lines(command: Command) -> Seq<Seq<char>> {
    match command {
        Command::SystemCreate { name, .. } => seq!["create system: "@ + name@],
        Command::SystemList => seq!["list registered systems"@],
        Command::SystemShow { name } => seq!["show system: "@ + name@],
        Command::ImportApplication { repository, .. } => seq!["import repository: "@ + repository@],
        Command::ListApplications => seq!["list registered applications"@],
        Command::ListDeployments { application_name } => seq![resolve_line(application_name@)],
        Command::ApplicationStatus { application_name } => seq![
            resolve_line(application_name@),
            "report status of application "@ + application_name@,
        ],
        Command::ApplicationStop { application_name } => seq![
            resolve_line(application_name@),
            "stop application "@ + application_name@,
        ],
        Command::ApplicationStart { application_name } => seq![
            resolve_line(application_name@),
            "start application "@ + application_name@,
        ],
        Command::VisibilitySet { application_name, visibility } => seq![
            resolve_line(application_name@),
            "set visibility of application "@ + application_name@ + " to "@ + visibility_text(
                visibility,
            ),
        ],
        Command::Reconcile { application_name } => seq!["reconcile application: "@ + application_name@],
        Command::DeployImage { application_name, .. } => seq![resolve_line(application_name@)],
        Command::DeployBranch { application_name, .. } => seq![resolve_line(application_name@)],
        Command::Rollback { application_name } => seq![resolve_line(application_name@)],
        Command::Doctor | Command::DatabaseBackup { .. } | Command::DatabaseRestore { .. } => seq![],
    }
}

fn line_with(prefix: &str, value: &str) -> (r: String)
    ensures
        r@ == prefix@ + value@,
{
    let mut out = prefix.to_owned();
    push_str(&mut out, value);
    out
}

/// The verbose lines announcing `command`, in the order they are logged.
pub fn command_start_messages(command: &Command) -> (r: Vec<String>)
    ensures
        r@.len() == command_start_lines(*command).len(),
        forall|i: int| 0 <= i < r@.len() ==> (#[trigger] r@[i])@ == command_start_lines(*command)[i],
{
    let mut lines: Vec<String> = Vec::new();
    match command {
        Command::SystemCreate { name, .. } => lines.push(line_with("create system: ", name.as_str())),
        Command::SystemList => lines.push("list registered systems".to_owned()),
        Command::SystemShow { name } => lines.push(line_with("show system: ", name.as_str())),
        Command::ImportApplication { repository, .. } => lines.push(
            line_with("import repository: ", repository.as_str()),
        ),
        Command::ListApplications => lines.push("list registered applications".to_owned()),
        Command::ListDeployments { application_name } | Command::DeployImage {
            application_name,
            ..
        } | Command::DeployBranch { application_name, .. } | Command::Rollback {
            application_name,
        } => lines.push(line_with("resolve application by name: ", application_name.as_str())),
        Command::ApplicationStatus { application_name } => {
            lines.push(line_with("resolve application by name: ", application_name.as_str()));
            lines.push(line_with("report status of application ", application_name.as_str()));
        },
        Command::ApplicationStop { application_name } => {
            lines.push(line_with("resolve application by name: ", application_name.as_str()));
            lines.push(line_with("stop application ", application_name.as_str()));
        },
        Command::ApplicationStart { application_name } => {
            lines.push(line_with("resolve application by name: ", application_name.as_str()));
            lines.push(line_with("start application ", application_name.as_str()));
        },
        Command::VisibilitySet { application_name, visibility } => {
            lines.push(line_with("resolve application by name: ", application_name.as_str()));
            let mut line = line_with("set visibility of application ", application_name.as_str());
            push_str(&mut line, " to ");
            push_str(&mut line, visibility_label(*visibility));
            lines.push(line);
        },
        Command::Reconcile { application_name } => lines.push(
            line_with("reconcile application: ", application_name.as_str()),
        ),
        Command::Doctor | Command::DatabaseBackup { .. } | Command::DatabaseRestore { .. } => {},
    }
    lines
}

/// What the terminal shows for one command result: the lines logged before it in
/// verbose mode, the text printed on standard output, and the failure the command
/// ends with although it ran.
#[derive(Debug)]
pub struct RenderedResult {
    pub verbose_lines: Vec<String>,
    pub output: Option<String>,
    pub failure: Option<CliError>,
}

/// Text that is printed only when it is not empty.
pub open spec fn nonempty(text: Seq<char>) -> Option<Seq<char>> {
    if text.len() == 0 {
        None
    } else {
        Some(text)
    }
}

/// The standard output of each result; empty listings print nothing.
pub open spec fn result_output(result: CommandResult) -> Option<Seq<char>> {
    match result {
        CommandResult::SystemCreated(system) => Some("Created "@ + system.name@),
        CommandResult::Systems(systems) => nonempty(system_list_text(systems@)),
        CommandResult::SystemDetails(details) => Some(system_details_text(details)),
        CommandResult::ApplicationImported(application) => Some(imported_application_text(application)),
        CommandResult::Applications(entries) => nonempty(application_list_text(entries@)),
        CommandResult::ApplicationDeployments { application_name, deployments } => Some(
            deployment_history_text(application_name@, deployments@),
        ),
        CommandResult::ApplicationStatus { application_name, observation } => Some(
            application_status_text(application_name@, observation),
        ),
        CommandResult::ApplicationStopped { application_name, observation } => Some(
            application_stopped_text(application_name@, observation),
        ),
        CommandResult::ApplicationStarted { application_name, observation } => Some(
            application_started_text(application_name@, observation),
        ),
        CommandResult::ApplicationDeployed { application_name, deployment } => Some(
            deployed_text(application_name@, deployment),
        ),
        CommandResult::ApplicationRolledBack { application_name, deployment } => Some(
            rollback_text(application_name@, deployment),
        ),
        CommandResult::ExposureChanged { application_name, change } => Some(
            visibility_change_message(application_name@, change),
        ),
        CommandResult::Reconciled { application_name, result } => Some(
            "Application: "@ + application_name@ + reconciliation_text(result),
        ),
        CommandResult::Doctor(report) => Some(doctor_report_text(report)),
        CommandResult::DatabaseBackedUp { path } => Some("Database backup: "@ + path@),
        CommandResult::DatabaseRestored { path, pre_restore_path } => Some(
            "Database restored from "@ + path@ + "\nPre-restore backup: "@ + pre_restore_path@,
        ),
    }
}

/// The verbose lines logged before a result's output.
pub open spec fn result_verbose_lines(result: CommandResult) -> Seq<Seq<char>> {
    match result {
        CommandResult::ApplicationDeployments { application_name, .. } => seq![
            "list deployments of application "@ + application_name@,
        ],
        _ => seq![],
    }
}

fn printed(text: String) -> (r: Option<String>)
    ensures
        match (r, nonempty(text@)) {
            (Some(x), Some(y)) => x@ == y,
            (None, None) => true,
            _ => false,
        },
{
    if text.as_str().is_empty() {
        None
    } else {
        Some(text)
    }
}

/// Renders a command result without regard to the command that produced it; an
/// unhealthy diagnostic report fails the command after it is shown.
pub fn render_command_result(result: &CommandResult) -> (r: RenderedResult)
    ensures
        r.verbose_lines@.len() == result_verbose_lines(*result).len(),
        forall|i: int|
            0 <= i < r.verbose_lines@.len() ==> (#[trigger] r.verbose_lines@[i])@
                == result_verbose_lines(*result)[i],
        match (r.output, result_output(*result)) {
            (Some(x), Some(y)) => x@ == y,
            (None, None) => true,
            _ => false,
        },
        match *result {
            CommandResult::Doctor(report) => if report_healthy(report) {
                r.failure is None
            } else {
                r.failure == Some(CliError::Doctor)
            },
            _ => r.failure is None,
        },
{
    let mut verbose_lines: Vec<String> = Vec::new();
    let mut failure: Option<CliError> = None;
    let output = match result {
        CommandResult::SystemCreated(system) => Some(created_system(system)),
        CommandResult::Systems(systems) => printed(system_list(systems.as_slice())),
        CommandResult::SystemDetails(details) => Some(system_details(details)),
        CommandResult::ApplicationImported(application) => Some(imported_application(application)),
        CommandResult::Applications(entries) => printed(application_list(entries.as_slice())),
        CommandResult::ApplicationDeployments { application_name, deployments } => {
            verbose_lines.push(
                line_with("list deployments of application ", application_name.as_str()),
            );
            Some(deployment_history(application_name, deployments.as_slice()))
        },
        CommandResult::ApplicationStatus { application_name, observation } => Some(
            application_status(application_name, observation),
        ),
        CommandResult::ApplicationStopped { application_name, observation } => Some(
            application_stopped(application_name, observation),
        ),
        CommandResult::ApplicationStarted { application_name, observation } => Some(
            application_started(application_name, observation),
        ),
        CommandResult::ApplicationDeployed { application_name, deployment } => Some(
            deployed(application_name, deployment),
        ),
        CommandResult::ApplicationRolledBack { application_name, deployment } => Some(
            rollback_result(application_name, deployment),
        ),
        CommandResult::ExposureChanged { application_name, change } => Some(
            visibility_change(application_name, change),
        ),
        CommandResult::Reconciled { application_name, result } => Some(
            reconciliation_result(application_name, result),
        ),
        CommandResult::Doctor(report) => {
            if !report.is_healthy() {
                failure = Some(CliError::Doctor);
            }
            Some(doctor_report(report))
        },
        CommandResult::DatabaseBackedUp { path } => Some(database_backup(path.as_str())),
        CommandResult::DatabaseRestored { path, pre_restore_path } => Some(
            database_restore(path.as_str(), pre_restore_path.as_str()),
        ),
    };
    RenderedResult { verbose_lines, output, failure }
}

} // verus!
