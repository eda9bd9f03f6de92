//! The terminal interface's session: which tab and pane have focus, what each view
//! has loaded, the queue of work for the background worker, and how keys and
//! worker replies change all of it. The terminal adapter draws the session, reads
//! keys, runs the worker thread, and feeds replies back.

use std::collections::VecDeque;

use vstd::prelude::*;

use crate::cli::tui::{
    action_application, deploy_action, deploy_form_edited, deploy_form_submitted,
    deploy_form_toggled, deploy_form_value, deployment_result_message, field_value, form_edited,
    form_focus_moved, form_submitted, fresh_deploy_form, fresh_log, import_application_form,
    import_into_system_form, log_appended, log_closed, log_moved_to_end, log_moved_to_start,
    log_scrolled_down, log_scrolled_up, next_selection, preserved, preserved_selection,
    request_command, stepped, strings_view_of, submission_error, submitted, system_create_form,
    tab_at, tab_index, well_formed_form, without_last, worker_error_text, DeployForm,
    DeploymentLog, Form, PendingAction, Request, Tab, WorkerError,
};
use crate::cli::output::{
    reconciliation_result, reconciliation_text, visibility_change, visibility_change_message,
};
use crate::cli::tui::deployment_result_text;
use crate::control::outcome::{
    ApplicationCatalogEntry, DeploymentEvent, RuntimeObservation, SystemDetails,
};
use crate::control::CommandResult;
use crate::domain::deployment::DeploymentHistory;
use crate::domain::system::System;
use crate::text::{push_str, str_eq};

verus! {

/// Which column of the current tab receives navigation keys.
#[derive(Clone, Copy, Debug, PartialEq, Eq, Structural)]
pub enum Focus {
    Listing,
    Details,
    Log,
}

/// The state of one view's data: not requested, loading, loaded, or failed with the
/// displayed error.
#[derive(Debug)]
pub enum QueryState<T> {
    Idle,
    Loading,
    Ready(T),
    Failed(String),
}

/// The message of the last finished action, shown only in the detail view it
/// belongs to: an application name for application actions, a system name for
/// system actions.
#[derive(Debug)]
pub struct ActionOutcome {
    pub scope: String,
    pub message: String,
}

/// What owns the keyboard: navigation, a confirmation, or one of the forms.
#[derive(Debug)]
pub enum Mode {
    Normal,
    Confirm(PendingAction),
    Form(Form),
    Deploy(DeployForm),
}

/// The keys the interface reacts to; any other key is `Other`.
#[derive(Clone, Copy, Debug, PartialEq, Eq, Structural)]
pub enum KeyCode {
    Char(char),
    Enter,
    Esc,
    Tab,
    BackTab,
    Backspace,
    Left,
    Right,
    Up,
    Down,
    PageUp,
    PageDown,
    Home,
    End,
    Other,
}

/// One key press, with whether Control was held.
#[derive(Clone, Copy, Debug, PartialEq, Eq, Structural)]
pub struct KeyEvent {
    pub code: KeyCode,
    pub control: bool,
}

impl KeyEvent {
    pub fn new(code: KeyCode, control: bool) -> (r: Self)
        ensures
            r == (KeyEvent { code, control }),
    {
        KeyEvent { code, control }
    }
}

/// A worker reply that does not belong to the dispatched request.
#[derive(Clone, Copy, Debug, PartialEq, Eq, Structural)]
pub enum SessionError {
    UnexpectedReply,
    ReplyOrderChanged,
}

impl SessionError {
    pub fn message(&self) -> (r: &'static str)
        ensures
            *self is UnexpectedReply ==> r@ == "TUI received an unexpected worker reply"@,
            *self is ReplyOrderChanged ==> r@ == "TUI worker reply order changed"@,
    {
        match self {
            SessionError::UnexpectedReply => "TUI received an unexpected worker reply",
            SessionError::ReplyOrderChanged => "TUI worker reply order changed",
        }
    }
}

/// The interface's whole state apart from the worker itself. At most one request
/// is with the worker (`active`); the rest wait in `queued`, oldest first.
#[derive(Debug)]
pub struct Session {
    pub next_request_id: u64,
    pub active: Option<(u64, Request)>,
    pub queued: VecDeque<Request>,
    pub tab: Tab,
    pub focus: Focus,
    pub systems: QueryState<Vec<System>>,
    pub selected_system: Option<String>,
    pub system_details_target: Option<String>,
    pub system_details: QueryState<SystemDetails>,
    pub catalog: QueryState<Vec<ApplicationCatalogEntry>>,
    pub selected_application: Option<String>,
    pub observations_application: Option<String>,
    pub deployments: QueryState<Vec<DeploymentHistory>>,
    pub runtime: QueryState<RuntimeObservation>,
    pub mode: Mode,
    pub error: Option<String>,
    pub outcome: Option<ActionOutcome>,
    pub deployment_log: Option<DeploymentLog>,
    pub quit_after_completion: bool,
}

pub open spec fn opt_view(o: Option<String>) -> Option<Seq<char>> {
    match o {
        Some(s) => Some(s@),
        None => None,
    }
}

/// An open form is well formed.
pub open spec fn session_wf(s: Session) -> bool {
    s.mode matches Mode::Form(f) ==> well_formed_form(f)
}

/// Work is dispatched or waiting.
pub open spec fn busy(s: Session) -> bool {
    s.active is Some || s.queued@.len() > 0
}

/// The interface has been asked to quit and has no work left.
pub open spec fn exits(s: Session) -> bool {
    s.quit_after_completion && !busy(s)
}

/// `t` is `s` with `added` appended to the queue and the named fields of `u`.
pub open spec fn enqueued(s: Session, added: Seq<Request>, t: Session) -> bool {
    t.queued@ == s.queued@ + added
}

pub open spec fn quit_requested(s: Session, t: Session) -> bool {
    &&& t == Session { queued: t.queued, quit_after_completion: true, ..s }
    &&& t.queued@.len() == 0
}

pub open spec fn confirming(s: Session, action: PendingAction, t: Session) -> bool {
    t == Session { error: None, outcome: None, mode: Mode::Confirm(action), ..s }
}

/// `t` is `s` with messages cleared and `mode` replaced by a mode that `opened`
/// accepts.
pub open spec fn mode_opened(s: Session, t: Session) -> bool {
    t == Session { error: None, outcome: None, mode: t.mode, ..s }
}

pub open spec fn deploy_form_opened(s: Session, application_name: String, t: Session) -> bool {
    &&& mode_opened(s, t)
    &&& t.mode matches Mode::Deploy(f) && fresh_deploy_form(f, application_name)
}

pub open spec fn system_create_form_opened(s: Session, t: Session) -> bool {
    &&& mode_opened(s, t)
    &&& t.mode matches Mode::Form(f) && system_create_form(f)
}

pub open spec fn import_form_opened(s: Session, t: Session) -> bool {
    &&& mode_opened(s, t)
    &&& t.mode matches Mode::Form(f) && import_application_form(f)
}

/// Adding an application needs a selected system; the form binds it.
pub open spec fn add_application_opened(s: Session, t: Session) -> bool {
    match s.selected_system {
        None => t == Session { error: t.error, ..s } && (t.error matches Some(e) && e@
            == "Select a system before adding an application."@),
        Some(system_name) => mode_opened(s, t) && (t.mode matches Mode::Form(f)
            && import_into_system_form(f, system_name)),
    }
}

/// The loaded details, or the loading request, already belong to `selected`.
pub open spec fn details_match_selection(s: Session, selected: Seq<char>) -> bool {
    match s.system_details {
        QueryState::Ready(details) => details.system.name@ == selected,
        QueryState::Loading => opt_view(s.system_details_target) == Some(selected),
        _ => false,
    }
}

pub open spec fn system_details_requested(s: Session, system_name: String, t: Session) -> bool {
    &&& t == Session {
        system_details: QueryState::Loading,
        system_details_target: Some(system_name),
        error: None,
        queued: t.queued,
        ..s
    }
    &&& enqueued(s, seq![Request::SystemShow { system_name }], t)
}

/// The system details follow the selection: when idle, a selection whose details
/// are neither loaded nor loading requests them.
pub open spec fn system_details_ensured(s: Session, t: Session) -> bool {
    match s.selected_system {
        None => t == s,
        Some(selected) => if busy(s) || details_match_selection(s, selected@) {
            t == s
        } else {
            system_details_requested(s, selected, t)
        },
    }
}

pub open spec fn observations_requested(s: Session, application_name: String, t: Session) -> bool {
    &&& t == Session {
        observations_application: Some(application_name),
        deployments: QueryState::Loading,
        runtime: QueryState::Loading,
        error: None,
        queued: t.queued,
        ..s
    }
    &&& enqueued(
        s,
        seq![
            Request::Deployments { application_name },
            Request::Status { application_name },
        ],
        t,
    )
}

/// The deployment history and runtime status follow the application selection:
/// when idle, a selection they were not loaded for requests both.
pub open spec fn observations_ensured(s: Session, t: Session) -> bool {
    match s.selected_application {
        None => t == s,
        Some(selected) => if busy(s) || opt_view(s.observations_application) == Some(selected@) {
            t == s
        } else {
            observations_requested(s, selected, t)
        },
    }
}

pub open spec fn tab_switched(s: Session, tab: Tab, t: Session) -> bool {
    if busy(s) || s.tab == tab {
        t == s
    } else {
        let u = Session { tab, focus: Focus::Listing, ..s };
        match tab {
            Tab::Systems => system_details_ensured(u, t),
            Tab::Deployments => observations_ensured(u, t),
            Tab::Applications => t == u,
        }
    }
}

pub open spec fn systems_refreshed(s: Session, t: Session) -> bool {
    if busy(s) {
        t == s
    } else {
        &&& t == Session { systems: QueryState::Loading, error: None, queued: t.queued, ..s }
        &&& enqueued(s, seq![Request::Systems], t)
    }
}

pub open spec fn catalog_refreshed(s: Session, t: Session) -> bool {
    if busy(s) {
        t == s
    } else {
        &&& t == Session { catalog: QueryState::Loading, error: None, queued: t.queued, ..s }
        &&& enqueued(s, seq![Request::Catalog], t)
    }
}

pub open spec fn system_details_refreshed(s: Session, t: Session) -> bool {
    match s.selected_system {
        Some(selected) if !busy(s) => system_details_requested(s, selected, t),
        _ => t == s,
    }
}

pub open spec fn details_refreshed(s: Session, t: Session) -> bool {
    match s.selected_application {
        Some(selected) if !busy(s) => observations_requested(s, selected, t),
        _ => t == s,
    }
}

pub open spec fn system_names(systems: Seq<System>) -> Seq<Seq<char>> {
    Seq::new(systems.len(), |i: int| systems[i].name@)
}

pub open spec fn entry_names(entries: Seq<ApplicationCatalogEntry>) -> Seq<Seq<char>> {
    Seq::new(entries.len(), |i: int| entries[i].summary.name@)
}

/// One step through the loaded systems, after which the details follow.
pub open spec fn system_selection_moved(s: Session, movement: int, t: Session) -> bool {
    match s.systems {
        QueryState::Ready(systems) => {
            &&& opt_view(t.selected_system) == stepped(
                system_names(systems@),
                opt_view(s.selected_system),
                movement,
            )
            &&& system_details_ensured(Session { selected_system: t.selected_system, ..s }, t)
        },
        _ => t == s,
    }
}

/// One step through the loaded catalog, after which the observations follow.
pub open spec fn application_selection_moved(s: Session, movement: int, t: Session) -> bool {
    match s.catalog {
        QueryState::Ready(entries) => {
            &&& opt_view(t.selected_application) == stepped(
                entry_names(entries@),
                opt_view(s.selected_application),
                movement,
            )
            &&& observations_ensured(
                Session { selected_application: t.selected_application, ..s },
                t,
            )
        },
        _ => t == s,
    }
}

/// A confirmed action replaces all waiting work and clears the messages.
pub open spec fn action_executed(s: Session, action: PendingAction, t: Session) -> bool {
    &&& t == Session { error: None, outcome: None, queued: t.queued, ..s }
    &&& t.queued@ == seq![Request::Action(action)]
}

/// An action is dispatched or waiting.
pub open spec fn action_pending(s: Session) -> bool {
    ||| s.active matches Some((_, r)) && r is Action
    ||| exists|i: int| 0 <= i < s.queued@.len() && #[trigger] s.queued@[i] is Action
}

/// After an action finishes (either way), the views it affects reload, unless the
/// interface is quitting or another action already waits.
pub open spec fn refreshed_after_action(s: Session, action: PendingAction, t: Session) -> bool {
    if s.quit_after_completion || action_pending(s) {
        t == s
    } else {
        match action {
            PendingAction::SystemCreate { name, .. } => {
                &&& t == Session {
                    systems: QueryState::Loading,
                    selected_system: Some(name),
                    queued: t.queued,
                    ..s
                }
                &&& enqueued(s, seq![Request::Systems], t)
            },
            PendingAction::ImportApplication { system_name, .. } => match system_name {
                None => {
                    &&& t == Session { catalog: QueryState::Loading, queued: t.queued, ..s }
                    &&& enqueued(s, seq![Request::Catalog], t)
                },
                Some(system_name) => if s.system_details is Ready {
                    &&& t == Session {
                        catalog: QueryState::Loading,
                        systems: QueryState::Loading,
                        system_details: QueryState::Loading,
                        queued: t.queued,
                        ..s
                    }
                    &&& enqueued(
                        s,
                        seq![Request::Catalog, Request::Systems, Request::SystemShow { system_name }],
                        t,
                    )
                } else {
                    &&& t == Session {
                        catalog: QueryState::Loading,
                        systems: QueryState::Loading,
                        queued: t.queued,
                        ..s
                    }
                    &&& enqueued(s, seq![Request::Catalog, Request::Systems], t)
                },
            },
            PendingAction::Start { application_name } | PendingAction::Stop {
                application_name,
            } => {
                &&& t == Session {
                    catalog: QueryState::Loading,
                    runtime: QueryState::Loading,
                    queued: t.queued,
                    ..s
                }
                &&& enqueued(s, seq![Request::Catalog, Request::Status { application_name }], t)
            },
            PendingAction::Reconcile { application_name }
            | PendingAction::DeployBranch { application_name, .. }
            | PendingAction::DeployImage { application_name, .. }
            | PendingAction::Rollback { application_name } => {
                &&& t == Session {
                    catalog: QueryState::Loading,
                    deployments: QueryState::Loading,
                    runtime: QueryState::Loading,
                    queued: t.queued,
                    ..s
                }
                &&& enqueued(
                    s,
                    seq![
                        Request::Catalog,
                        Request::Deployments { application_name },
                        Request::Status { application_name },
                    ],
                    t,
                )
            },
            PendingAction::SetVisibility { .. } => {
                &&& t == Session { catalog: QueryState::Loading, queued: t.queued, ..s }
                &&& enqueued(s, seq![Request::Catalog], t)
            },
        }
    }
}

/// A loaded system list keeps the selection when it is still listed (else the first
/// system), after which the details follow.
pub open spec fn systems_applied(s: Session, systems: Vec<System>, t: Session) -> bool {
    &&& opt_view(t.selected_system) == preserved(system_names(systems@), opt_view(s.selected_system))
    &&& system_details_ensured(
        Session { selected_system: t.selected_system, systems: QueryState::Ready(systems), ..s },
        t,
    )
}

/// A loaded catalog keeps the selection when it is still listed (else the first
/// application), after which the observations follow.
pub open spec fn catalog_applied(
    s: Session,
    entries: Vec<ApplicationCatalogEntry>,
    t: Session,
) -> bool {
    &&& opt_view(t.selected_application) == preserved(
        entry_names(entries@),
        opt_view(s.selected_application),
    )
    &&& observations_ensured(
        Session {
            selected_application: t.selected_application,
            catalog: QueryState::Ready(entries),
            ..s
        },
        t,
    )
}

/// A failed request marks its view failed (a failed catalog also drops the
/// selection), a failed action refreshes what it affects, and the error is shown.
pub open spec fn error_applied(s: Session, request: Request, error: String, t: Session) -> bool {
    &&& t.error == Some(error)
    &&& match request {
        Request::Systems => t == Session {
            systems: QueryState::Failed(error),
            error: Some(error),
            ..s
        },
        Request::SystemShow { .. } => t == Session {
            system_details: QueryState::Failed(error),
            error: Some(error),
            ..s
        },
        Request::Catalog => t == Session {
            catalog: QueryState::Failed(error),
            selected_application: None,
            error: Some(error),
            ..s
        },
        Request::Deployments { .. } => t == Session {
            deployments: QueryState::Failed(error),
            error: Some(error),
            ..s
        },
        Request::Status { .. } => t == Session {
            runtime: QueryState::Failed(error),
            error: Some(error),
            ..s
        },
        Request::Action(action) => refreshed_after_action(s, action, Session { error: s.error, ..t }),
    }
}

/// What a finished request's successful result changes: each view stores its
/// data, each action records its outcome line and refreshes what it affects; a
/// result that does not answer the request is treated as an error.
pub open spec fn success_applied(s: Session, request: Request, result: CommandResult, t: Session) -> bool {
    let unexpected = t.error matches Some(e) && e@ == "TUI received an unexpected control result"@
        && error_applied(s, request, e, t);
    let with_outcome = Session { outcome: t.outcome, ..s };
    match (request, result) {
        (Request::Systems, CommandResult::Systems(systems)) => systems_applied(s, systems, t),
        (Request::SystemShow { system_name }, CommandResult::SystemDetails(details)) => if system_name@
            == details.system.name@ {
            t == Session { system_details: QueryState::Ready(details), ..s }
        } else {
            unexpected
        },
        (Request::Catalog, CommandResult::Applications(entries)) => catalog_applied(s, entries, t),
        (
            Request::Action(PendingAction::SystemCreate { name, description }),
            CommandResult::SystemCreated(system),
        ) => if name@ == system.name@ {
            &&& t.outcome matches Some(o) && o.scope@ == system.name@ && o.message@ == "Created system "@
                + system.name@
            &&& refreshed_after_action(
                with_outcome,
                PendingAction::SystemCreate { name, description },
                t,
            )
        } else {
            unexpected
        },
        (
            Request::Action(PendingAction::ImportApplication { repository, system_name, manifest_path }),
            CommandResult::ApplicationImported(application),
        ) => {
            &&& t.outcome matches Some(o) && o.scope@ == application.name@ && o.message@
                == "Imported application "@ + application.name@
            &&& opt_view(t.selected_application) == Some(application.name@)
            &&& refreshed_after_action(
                Session { selected_application: t.selected_application, ..with_outcome },
                PendingAction::ImportApplication { repository, system_name, manifest_path },
                t,
            )
        },
        (
            Request::Deployments { application_name },
            CommandResult::ApplicationDeployments { application_name: result_name, deployments },
        ) => if application_name@ == result_name@ {
            t == Session { deployments: QueryState::Ready(deployments), ..s }
        } else {
            unexpected
        },
        (
            Request::Status { application_name },
            CommandResult::ApplicationStatus { application_name: result_name, observation },
        ) => if application_name@ == result_name@ {
            t == Session { runtime: QueryState::Ready(observation), ..s }
        } else {
            unexpected
        },
        (
            Request::Action(PendingAction::Start { application_name }),
            CommandResult::ApplicationStarted { application_name: result_name, observation },
        ) => if application_name@ == result_name@ {
            &&& t.outcome matches Some(o) && o.scope == application_name && o.message@ == "Started "@
                + result_name@
            &&& refreshed_after_action(
                Session { runtime: QueryState::Ready(observation), ..with_outcome },
                PendingAction::Start { application_name },
                t,
            )
        } else {
            unexpected
        },
        (
            Request::Action(PendingAction::Stop { application_name }),
            CommandResult::ApplicationStopped { application_name: result_name, observation },
        ) => if application_name@ == result_name@ {
            &&& t.outcome matches Some(o) && o.scope == application_name && o.message@ == "Stopped "@
                + result_name@
            &&& refreshed_after_action(
                Session { runtime: QueryState::Ready(observation), ..with_outcome },
                PendingAction::Stop { application_name },
                t,
            )
        } else {
            unexpected
        },
        (
            Request::Action(PendingAction::Reconcile { application_name }),
            CommandResult::Reconciled { application_name: result_name, result },
        ) => if application_name@ == result_name@ {
            &&& t.outcome matches Some(o) && o.scope@ == result_name@ && o.message@ == "Application: "@
                + result_name@ + reconciliation_text(result)
            &&& refreshed_after_action(with_outcome, PendingAction::Reconcile { application_name }, t)
        } else {
            unexpected
        },
        (
            Request::Action(PendingAction::SetVisibility { application_name, visibility }),
            CommandResult::ExposureChanged { application_name: result_name, change },
        ) => if application_name@ == result_name@ && change.visibility == visibility {
            &&& t.outcome matches Some(o) && o.scope@ == result_name@ && o.message@
                == visibility_change_message(result_name@, change)
            &&& refreshed_after_action(
                with_outcome,
                PendingAction::SetVisibility { application_name, visibility },
                t,
            )
        } else {
            unexpected
        },
        (
            Request::Action(PendingAction::DeployBranch { application_name, branch }),
            CommandResult::ApplicationDeployed { application_name: result_name, deployment },
        ) => if application_name@ == result_name@ {
            &&& t.outcome matches Some(o) && o.scope@ == result_name@ && o.message@
                == deployment_result_text("Deployed"@, result_name@, deployment)
            &&& refreshed_after_action(
                with_outcome,
                PendingAction::DeployBranch { application_name, branch },
                t,
            )
        } else {
            unexpected
        },
        (
            Request::Action(PendingAction::DeployImage { application_name, image_reference }),
            CommandResult::ApplicationDeployed { application_name: result_name, deployment },
        ) => if application_name@ == result_name@ {
            &&& t.outcome matches Some(o) && o.scope@ == result_name@ && o.message@
                == deployment_result_text("Deployed"@, result_name@, deployment)
            &&& refreshed_after_action(
                with_outcome,
                PendingAction::DeployImage { application_name, image_reference },
                t,
            )
        } else {
            unexpected
        },
        (
            Request::Action(PendingAction::Rollback { application_name }),
            CommandResult::ApplicationRolledBack { application_name: result_name, deployment },
        ) => if application_name@ == result_name@ {
            &&& t.outcome matches Some(o) && o.scope@ == result_name@ && o.message@
                == deployment_result_text("Rolled back"@, result_name@, deployment)
            &&& refreshed_after_action(with_outcome, PendingAction::Rollback { application_name }, t)
        } else {
            unexpected
        },
        _ => unexpected,
    }
}

/// A finished request applies its result, or its displayed error.
pub open spec fn result_applied(
    s: Session,
    request: Request,
    result: Result<CommandResult, WorkerError>,
    t: Session,
) -> bool {
    match result {
        Ok(value) => success_applied(s, request, value, t),
        Err(error) => t.error matches Some(e) && e@ == worker_error_text(error) && error_applied(
            s,
            request,
            e,
            t,
        ),
    }
}

/// An action that runs a deployment.
pub open spec fn is_deployment_action(action: PendingAction) -> bool {
    action is DeployBranch || action is DeployImage || action is Rollback
}

/// A dispatched deployment opens a new log for its application; other requests
/// keep the current log.
pub open spec fn log_after_dispatch(
    request: Request,
    before: Option<DeploymentLog>,
    after: Option<DeploymentLog>,
) -> bool {
    match request {
        Request::Action(action) if is_deployment_action(action) => after matches Some(log)
            && action_application(action) == Some(log.application_name@) && fresh_log(
            log,
            log.application_name@,
        ),
        _ => after == before,
    }
}

/// With no request dispatched, the oldest waiting one is dispatched under the next
/// id; its command is what the worker must run.
pub open spec fn dispatched(s: Session, r: Option<(u64, crate::control::Command)>, t: Session) -> bool {
    if s.active is Some || s.queued@.len() == 0 {
        r is None && t == s
    } else {
        let request = s.queued@[0];
        let id = s.next_request_id;
        &&& r == Some((id, request_command(request)))
        &&& t == Session {
            next_request_id: (id + 1) as u64,
            active: Some((id, request)),
            queued: t.queued,
            deployment_log: t.deployment_log,
            ..s
        }
        &&& t.queued@ == s.queued@.drop_first()
        &&& log_after_dispatch(request, s.deployment_log, t.deployment_log)
    }
}

/// A deployment event for the dispatched request extends the deployment log while a
/// deployment runs; a reply for no or another request is refused.
pub open spec fn event_received(
    s: Session,
    id: u64,
    event: DeploymentEvent,
    r: Result<(), SessionError>,
    t: Session,
) -> bool {
    match s.active {
        None => r == Err::<(), SessionError>(SessionError::UnexpectedReply) && t == s,
        Some((active_id, request)) => if id != active_id {
            r == Err::<(), SessionError>(SessionError::ReplyOrderChanged) && t == s
        } else {
            &&& r is Ok
            &&& if (request matches Request::Action(action) && is_deployment_action(action))
                && s.deployment_log is Some {
                &&& t == Session { deployment_log: t.deployment_log, ..s }
                &&& t.deployment_log matches Some(log) && log_appended(
                    s.deployment_log->0,
                    event,
                    log,
                )
            } else {
                t == s
            }
        },
    }
}

/// A finished deployment closes the log of its application, which is retained.
pub open spec fn log_after_finish(
    request: Request,
    result: Result<CommandResult, WorkerError>,
    before: Option<DeploymentLog>,
    after: Option<DeploymentLog>,
) -> bool {
    match (request, before) {
        (Request::Action(action), Some(log)) if is_deployment_action(action) && action_application(
            action,
        ) == Some(log.application_name@) => after matches Some(closed) && log_closed(
            log,
            result,
            closed,
        ),
        _ => after == before,
    }
}

/// The result for the dispatched request completes it: its deployment log is
/// closed and the result applied. A reply for no or another request is refused.
pub open spec fn finished_received(
    s: Session,
    id: u64,
    result: Result<CommandResult, WorkerError>,
    r: Result<(), SessionError>,
    t: Session,
) -> bool {
    match s.active {
        None => r == Err::<(), SessionError>(SessionError::UnexpectedReply) && t == s,
        Some((active_id, request)) => if id != active_id {
            r == Err::<(), SessionError>(SessionError::ReplyOrderChanged) && t == Session {
                active: None,
                ..s
            }
        } else {
            let u = Session { active: None, deployment_log: t.deployment_log, ..s };
            &&& r is Ok
            &&& log_after_finish(request, result, s.deployment_log, t.deployment_log)
            &&& result_applied(u, request, result, t)
        },
    }
}

pub open spec fn interrupts(key: KeyEvent) -> bool {
    key.code == KeyCode::Char('c') && key.control
}

pub open spec fn quits(key: KeyEvent) -> bool {
    key.code == KeyCode::Char('q') || interrupts(key)
}

pub open spec fn next_tab(tab: Tab) -> Tab {
    tab_at((tab_index(tab) + 1) % 3)
}

pub open spec fn previous_tab(tab: Tab) -> Tab {
    tab_at((tab_index(tab) + 2) % 3)
}

/// The digits pick a tab; Tab and BackTab cycle through them.
pub open spec fn tab_key_target(key: KeyEvent, current: Tab) -> Option<Tab> {
    if key.code == KeyCode::Char('1') {
        Some(Tab::Systems)
    } else if key.code == KeyCode::Char('2') {
        Some(Tab::Applications)
    } else if key.code == KeyCode::Char('3') {
        Some(Tab::Deployments)
    } else if key.code == KeyCode::Tab {
        Some(next_tab(current))
    } else if key.code == KeyCode::BackTab {
        Some(previous_tab(current))
    } else {
        None
    }
}

/// The selected application has a deployment log to show.
pub open spec fn log_for_detail(s: Session) -> bool {
    s.deployment_log matches Some(log) && opt_view(s.selected_application) == Some(
        log.application_name@,
    )
}

/// Focus moves never start work: Left or Esc step back out of the log and the
/// details, Enter steps into the details and, when one exists, the log.
pub open spec fn focus_target(s: Session, key: KeyEvent) -> Option<Focus> {
    if s.focus == Focus::Log && (key.code == KeyCode::Left || key.code == KeyCode::Esc) {
        Some(Focus::Details)
    } else if s.focus == Focus::Details && (key.code == KeyCode::Left || key.code == KeyCode::Esc) {
        Some(Focus::Listing)
    } else if s.focus == Focus::Details && key.code == KeyCode::Enter && log_for_detail(s) {
        Some(Focus::Log)
    } else if s.focus == Focus::Listing && key.code == KeyCode::Enter {
        Some(Focus::Details)
    } else {
        None
    }
}

/// The rows one page of the log scrolls: its recorded viewport, at least one.
pub open spec fn page_rows(s: Session) -> u16 {
    match s.deployment_log {
        Some(log) if log_for_detail(s) => if log.viewport_rows > 1 {
            log.viewport_rows
        } else {
            1
        },
        _ => 1,
    }
}

/// The selected application's log changes by `changed`; without one nothing changes.
pub open spec fn detail_log_changed(
    s: Session,
    t: Session,
    changed: spec_fn(DeploymentLog, DeploymentLog) -> bool,
) -> bool {
    if log_for_detail(s) {
        &&& t == Session { deployment_log: t.deployment_log, ..s }
        &&& t.deployment_log matches Some(log) && changed(s.deployment_log->0, log)
    } else {
        t == s
    }
}

/// An application key asks to confirm the action on the selected application.
pub open spec fn selected_action_confirmed(
    s: Session,
    t: Session,
    action: spec_fn(String) -> PendingAction,
) -> bool {
    match s.selected_application {
        Some(application_name) => confirming(s, action(application_name), t),
        None => t == s,
    }
}

pub open spec fn is_down(key: KeyEvent) -> bool {
    key.code == KeyCode::Down || key.code == KeyCode::Char('j')
}

pub open spec fn is_up(key: KeyEvent) -> bool {
    key.code == KeyCode::Up || key.code == KeyCode::Char('k')
}

/// The keys of the focused pane. Navigation and loading wait while work is busy;
/// actions on the selected application and log scrolling do not.
pub open spec fn pane_key_handled(s: Session, key: KeyEvent, t: Session) -> bool {
    let idle = !busy(s);
    let c = key.code;
    match (s.tab, s.focus) {
        (Tab::Systems, Focus::Listing) => if is_down(key) && idle {
            system_selection_moved(s, 1, t)
        } else if is_up(key) && idle {
            system_selection_moved(s, -1, t)
        } else if c == KeyCode::Char('n') && idle {
            system_create_form_opened(s, t)
        } else if c == KeyCode::Char('a') && idle {
            add_application_opened(s, t)
        } else if c == KeyCode::Char('r') && idle {
            systems_refreshed(s, t)
        } else {
            t == s
        },
        (Tab::Systems, Focus::Details) => if is_down(key) && idle {
            system_selection_moved(s, 1, t)
        } else if is_up(key) && idle {
            system_selection_moved(s, -1, t)
        } else if c == KeyCode::Char('a') && idle {
            add_application_opened(s, t)
        } else if c == KeyCode::Char('r') && idle {
            system_details_refreshed(s, t)
        } else {
            t == s
        },
        (Tab::Applications, Focus::Listing) => if is_down(key) && idle {
            application_selection_moved(s, 1, t)
        } else if is_up(key) && idle {
            application_selection_moved(s, -1, t)
        } else if c == KeyCode::Char('n') && idle {
            import_form_opened(s, t)
        } else if c == KeyCode::Char('r') && idle {
            catalog_refreshed(s, t)
        } else {
            t == s
        },
        (Tab::Applications, Focus::Details) => if is_down(key) && idle {
            application_selection_moved(s, 1, t)
        } else if is_up(key) && idle {
            application_selection_moved(s, -1, t)
        } else if c == KeyCode::Char('r') && idle {
            details_refreshed(s, t)
        } else if c == KeyCode::Char('s') {
            selected_action_confirmed(s, t, |n: String| PendingAction::Start { application_name: n })
        } else if c == KeyCode::Char('x') {
            selected_action_confirmed(s, t, |n: String| PendingAction::Stop { application_name: n })
        } else if c == KeyCode::Char('c') {
            selected_action_confirmed(
                s,
                t,
                |n: String| PendingAction::Reconcile { application_name: n },
            )
        } else if c == KeyCode::Char('d') {
            match s.selected_application {
                Some(application_name) => deploy_form_opened(s, application_name, t),
                None => t == s,
            }
        } else if c == KeyCode::Char('b') {
            selected_action_confirmed(
                s,
                t,
                |n: String| PendingAction::Rollback { application_name: n },
            )
        } else if c == KeyCode::Char('p') {
            selected_action_confirmed(
                s,
                t,
                |n: String|
                    PendingAction::SetVisibility {
                        application_name: n,
                        visibility: crate::domain::exposure::Visibility::Public,
                    },
            )
        } else if c == KeyCode::Char('i') {
            selected_action_confirmed(
                s,
                t,
                |n: String|
                    PendingAction::SetVisibility {
                        application_name: n,
                        visibility: crate::domain::exposure::Visibility::Internal,
                    },
            )
        } else {
            t == s
        },
        (Tab::Applications, Focus::Log) => if is_up(key) {
            detail_log_changed(s, t, |l: DeploymentLog, m: DeploymentLog| log_scrolled_up(l, 1, m))
        } else if is_down(key) {
            detail_log_changed(
                s,
                t,
                |l: DeploymentLog, m: DeploymentLog| log_scrolled_down(l, 1, m),
            )
        } else if c == KeyCode::PageUp {
            detail_log_changed(
                s,
                t,
                |l: DeploymentLog, m: DeploymentLog| log_scrolled_up(l, page_rows(s), m),
            )
        } else if c == KeyCode::PageDown {
            detail_log_changed(
                s,
                t,
                |l: DeploymentLog, m: DeploymentLog| log_scrolled_down(l, page_rows(s), m),
            )
        } else if c == KeyCode::Home {
            detail_log_changed(s, t, |l: DeploymentLog, m: DeploymentLog| log_moved_to_start(l, m))
        } else if c == KeyCode::End {
            detail_log_changed(s, t, |l: DeploymentLog, m: DeploymentLog| log_moved_to_end(l, m))
        } else {
            t == s
        },
        (Tab::Deployments, Focus::Listing) => if is_down(key) && idle {
            application_selection_moved(s, 1, t)
        } else if is_up(key) && idle {
            application_selection_moved(s, -1, t)
        } else if c == KeyCode::Char('r') && idle {
            catalog_refreshed(s, t)
        } else {
            t == s
        },
        (Tab::Deployments, Focus::Details) => if is_down(key) && idle {
            application_selection_moved(s, 1, t)
        } else if is_up(key) && idle {
            application_selection_moved(s, -1, t)
        } else if c == KeyCode::Char('r') && idle {
            details_refreshed(s, t)
        } else {
            t == s
        },
        (_, Focus::Log) => t == s,
    }
}

/// Keys while no modal owns the keyboard: quitting, tab switching, focus moves,
/// then the keys of the focused pane.
pub open spec fn normal_key_handled(s: Session, key: KeyEvent, t: Session) -> bool {
    if quits(key) {
        quit_requested(s, t)
    } else if tab_key_target(key, s.tab) is Some {
        tab_switched(s, tab_key_target(key, s.tab)->0, t)
    } else if focus_target(s, key) is Some {
        t == Session { focus: focus_target(s, key)->0, ..s }
    } else if s.focus == Focus::Listing && key.code == KeyCode::Left && !busy(s) {
        tab_switched(s, previous_tab(s.tab), t)
    } else if s.focus == Focus::Listing && key.code == KeyCode::Right && !busy(s) {
        tab_switched(s, next_tab(s.tab), t)
    } else {
        pane_key_handled(s, key, t)
    }
}

/// `t` is `s` with an open form replaced by `g` that `changed` accepts.
pub open spec fn form_changed(s: Session, t: Session, changed: spec_fn(Form) -> bool) -> bool {
    &&& t == Session { mode: t.mode, ..s }
    &&& t.mode matches Mode::Form(g) && changed(g)
}

/// A multi-field form owns the keys: Control-C quits, Esc closes it, Enter submits
/// it (a valid form executes its action), and the other keys edit or move focus.
pub open spec fn form_key_handled(s: Session, form: Form, key: KeyEvent, t: Session) -> bool {
    let closed = Session { mode: Mode::Normal, ..s };
    let c = key.code;
    if interrupts(key) {
        quit_requested(closed, t)
    } else if c == KeyCode::Esc {
        t == closed
    } else if c == KeyCode::Enter {
        match submission_error(form) {
            Some(_) => form_changed(s, t, |g: Form| form_submitted(form, None, g)),
            None => t.queued@.len() == 1 && (t.queued@[0] matches Request::Action(action) && submitted(
                form,
                action,
            ) && action_executed(closed, action, t)),
        }
    } else if c == KeyCode::Backspace {
        form_changed(
            s,
            t,
            |g: Form| form_edited(form, g, without_last(field_value(form, form.focused as int))),
        )
    } else if c == KeyCode::Tab || c == KeyCode::Down {
        form_changed(s, t, |g: Form| form_focus_moved(form, g, 1))
    } else if c == KeyCode::BackTab || c == KeyCode::Up {
        form_changed(s, t, |g: Form| form_focus_moved(form, g, form.fields@.len() - 1))
    } else if c is Char {
        form_changed(
            s,
            t,
            |g: Form| form_edited(form, g, field_value(form, form.focused as int).push(c->0)),
        )
    } else {
        t == s
    }
}

/// `t` is `s` with the open deploy form replaced by `g` that `changed` accepts.
pub open spec fn deploy_form_changed(
    s: Session,
    t: Session,
    changed: spec_fn(DeployForm) -> bool,
) -> bool {
    &&& t == Session { mode: t.mode, ..s }
    &&& t.mode matches Mode::Deploy(g) && changed(g)
}

/// The deploy form owns the keys: Control-C quits, Esc closes it, Enter submits it,
/// Tab and the arrows switch the source, and the other keys edit the selected input.
pub open spec fn deploy_key_handled(s: Session, form: DeployForm, key: KeyEvent, t: Session) -> bool {
    let closed = Session { mode: Mode::Normal, ..s };
    let c = key.code;
    if interrupts(key) {
        quit_requested(closed, t)
    } else if c == KeyCode::Esc {
        t == closed
    } else if c == KeyCode::Enter {
        if deploy_form_value(form).len() == 0 {
            deploy_form_changed(s, t, |g: DeployForm| deploy_form_submitted(form, None, g))
        } else {
            action_executed(closed, deploy_action(form), t)
        }
    } else if c == KeyCode::Backspace {
        deploy_form_changed(
            s,
            t,
            |g: DeployForm| deploy_form_edited(form, g, without_last(deploy_form_value(form))),
        )
    } else if c == KeyCode::Tab || c == KeyCode::Left || c == KeyCode::Right {
        deploy_form_changed(s, t, |g: DeployForm| deploy_form_toggled(form, g))
    } else if c is Char {
        deploy_form_changed(
            s,
            t,
            |g: DeployForm| deploy_form_edited(form, g, deploy_form_value(form).push(c->0)),
        )
    } else {
        t == s
    }
}

/// A confirmation owns the keys until Enter or `y` executes the action, or Esc or
/// `n` cancels it.
pub open spec fn confirmation_key_handled(
    s: Session,
    action: PendingAction,
    key: KeyEvent,
    t: Session,
) -> bool {
    let closed = Session { mode: Mode::Normal, ..s };
    let c = key.code;
    if c == KeyCode::Enter || c == KeyCode::Char('y') {
        action_executed(closed, action, t)
    } else if c == KeyCode::Esc || c == KeyCode::Char('n') {
        t == closed
    } else {
        t == s
    }
}

/// What a key press does in each mode.
pub open spec fn key_handled(s: Session, key: KeyEvent, t: Session) -> bool {
    match s.mode {
        Mode::Form(form) => form_key_handled(s, form, key, t),
        Mode::Deploy(form) => deploy_key_handled(s, form, key, t),
        Mode::Confirm(action) => confirmation_key_handled(s, action, key, t),
        Mode::Normal => normal_key_handled(s, key, t),
    }
}

/// The session a terminal interface starts with: the catalog and the systems are
/// requested, the Applications listing has focus, nothing else is loaded.
pub open spec fn initial_session(s: Session) -> bool {
    &&& s == Session {
        next_request_id: 1,
        active: None,
        queued: s.queued,
        tab: Tab::Applications,
        focus: Focus::Listing,
        systems: QueryState::Loading,
        selected_system: None,
        system_details_target: None,
        system_details: QueryState::Idle,
        catalog: QueryState::Loading,
        selected_application: None,
        observations_application: None,
        deployments: QueryState::Idle,
        runtime: QueryState::Idle,
        mode: Mode::Normal,
        error: None,
        outcome: None,
        deployment_log: None,
        quit_after_completion: false,
    }
    &&& s.queued@ == seq![Request::Catalog, Request::Systems]
}

fn clone_name(name: &Option<String>) -> (r: Option<String>)
    ensures
        r == *name,
{
    match name {
        Some(value) => Some(value.clone()),
        None => None,
    }
}

fn name_str(name: &Option<String>) -> (r: Option<&str>)
    ensures
        match (r, *name) {
            (Some(x), Some(y)) => x@ == y@,
            (None, None) => true,
            _ => false,
        },
{
    match name {
        Some(value) => Some(value.as_str()),
        None => None,
    }
}

/// `name` holds exactly `text`.
fn name_is(name: &Option<String>, text: &str) -> (r: bool)
    ensures
        r == (opt_view(*name) == Some(text@)),
{
    match name {
        Some(value) => str_eq(value.as_str(), text),
        None => false,
    }
}

pub(crate) fn system_name_list(systems: &Vec<System>) -> (r: Vec<String>)
    ensures
        strings_view_of(r@) == system_names(systems@),
{
    let mut names: Vec<String> = Vec::new();
    let mut i: usize = 0;
    while i < systems.len()
        invariant
            i <= systems@.len(),
            names@.len() == i,
            forall|k: int| 0 <= k < i ==> (#[trigger] names@[k])@ == systems@[k].name@,
        decreases systems@.len() - i,
    {
        names.push(systems[i].name.as_str().to_owned());
        i = i + 1;
    }
    assert(strings_view_of(names@) =~= system_names(systems@));
    names
}

pub(crate) fn entry_name_list(entries: &Vec<ApplicationCatalogEntry>) -> (r: Vec<String>)
    ensures
        strings_view_of(r@) == entry_names(entries@),
{
    let mut names: Vec<String> = Vec::new();
    let mut i: usize = 0;
    while i < entries.len()
        invariant
            i <= entries@.len(),
            names@.len() == i,
            forall|k: int| 0 <= k < i ==> (#[trigger] names@[k])@ == entries@[k].summary.name@,
        decreases entries@.len() - i,
    {
        names.push(entries[i].summary.name.as_str().to_owned());
        i = i + 1;
    }
    assert(strings_view_of(names@) =~= entry_names(entries@));
    names
}

impl Session {
    /// A new session requests the catalog and the systems.
    pub fn new() -> (r: Self)
        ensures
            initial_session(r),
    {
        let mut queued: VecDeque<Request> = VecDeque::new();
        queued.push_back(Request::Catalog);
        queued.push_back(Request::Systems);
        assert(queued@ =~= seq![Request::Catalog, Request::Systems]);
        Session {
            next_request_id: 1,
            active: None,
            queued,
            tab: Tab::Applications,
            focus: Focus::Listing,
            systems: QueryState::Loading,
            selected_system: None,
            system_details_target: None,
            system_details: QueryState::Idle,
            catalog: QueryState::Loading,
            selected_application: None,
            observations_application: None,
            deployments: QueryState::Idle,
            runtime: QueryState::Idle,
            mode: Mode::Normal,
            error: None,
            outcome: None,
            deployment_log: None,
            quit_after_completion: false,
        }
    }

    pub fn is_busy(&self) -> (r: bool)
        ensures
            r == busy(*self),
    {
        self.active.is_some() || self.queued.len() > 0
    }

    pub fn should_exit(&self) -> (r: bool)
        ensures
            r == exits(*self),
    {
        self.quit_after_completion && !self.is_busy()
    }

    fn enqueue(&mut self, request: Request)
        ensures
            *final(self) == (Session { queued: final(self).queued, ..*old(self) }),
            enqueued(*old(self), seq![request], *final(self)),
    {
        self.queued.push_back(request);
        assert(self.queued@ == old(self).queued@ + seq![request]);
    }

    /// Quitting drops the waiting work and exits once the dispatched request ends.
    pub fn request_quit(&mut self)
        ensures
            quit_requested(*old(self), *final(self)),
    {
        self.queued.clear();
        self.quit_after_completion = true;
    }

    pub fn confirm(&mut self, action: PendingAction)
        ensures
            confirming(*old(self), action, *final(self)),
    {
        self.error = None;
        self.outcome = None;
        self.mode = Mode::Confirm(action);
    }

    pub fn open_deploy_form(&mut self, application_name: String)
        ensures
            deploy_form_opened(*old(self), application_name, *final(self)),
    {
        self.error = None;
        self.outcome = None;
        self.mode = Mode::Deploy(DeployForm::new(application_name));
    }

    pub fn open_system_create_form(&mut self)
        ensures
            system_create_form_opened(*old(self), *final(self)),
    {
        self.error = None;
        self.outcome = None;
        self.mode = Mode::Form(Form::system_create());
    }

    pub fn add_application_to_selected_system(&mut self)
        ensures
            add_application_opened(*old(self), *final(self)),
    {
        let system_name = match clone_name(&self.selected_system) {
            Some(name) => name,
            None => {
                self.error = Some("Select a system before adding an application.".to_owned());
                return;
            },
        };
        self.error = None;
        self.outcome = None;
        self.mode = Mode::Form(Form::import_into_system(system_name));
    }

    pub fn open_application_import_form(&mut self)
        ensures
            import_form_opened(*old(self), *final(self)),
    {
        self.error = None;
        self.outcome = None;
        self.mode = Mode::Form(Form::import_application());
    }

    pub fn load_observations(&mut self, application_name: String)
        ensures
            observations_requested(*old(self), application_name, *final(self)),
    {
        self.observations_application = Some(application_name.clone());
        self.deployments = QueryState::Loading;
        self.runtime = QueryState::Loading;
        self.error = None;
        let ghost before = self.queued@;
        let ghost name = application_name;
        self.enqueue(Request::Deployments { application_name: application_name.clone() });
        self.enqueue(Request::Status { application_name });
        assert(self.queued@ =~= before + seq![
            Request::Deployments { application_name: name },
            Request::Status { application_name: name },
        ]);
    }

    /// Details follow the selection: loading is deduplicated against the loaded or
    /// loading system.
    pub fn ensure_system_details_loaded(&mut self)
        ensures
            system_details_ensured(*old(self), *final(self)),
    {
        if self.is_busy() {
            return;
        }
        let selected = match clone_name(&self.selected_system) {
            Some(name) => name,
            None => {
                return;
            },
        };
        let matches_selection = match &self.system_details {
            QueryState::Ready(details) => str_eq(details.system.name.as_str(), selected.as_str()),
            QueryState::Loading => name_is(&self.system_details_target, selected.as_str()),
            _ => false,
        };
        if matches_selection {
            return;
        }
        self.system_details = QueryState::Loading;
        self.system_details_target = Some(selected.clone());
        self.error = None;
        self.enqueue(Request::SystemShow { system_name: selected });
    }

    pub fn ensure_observations_loaded(&mut self)
        ensures
            observations_ensured(*old(self), *final(self)),
    {
        if self.is_busy() {
            return;
        }
        let selected = match clone_name(&self.selected_application) {
            Some(name) => name,
            None => {
                return;
            },
        };
        if name_is(&self.observations_application, selected.as_str()) {
            return;
        }
        self.load_observations(selected);
    }

    pub fn switch_tab(&mut self, tab: Tab)
        ensures
            tab_switched(*old(self), tab, *final(self)),
    {
        if self.is_busy() || self.tab == tab {
            return;
        }
        self.tab = tab;
        self.focus = Focus::Listing;
        match tab {
            Tab::Systems => self.ensure_system_details_loaded(),
            Tab::Deployments => self.ensure_observations_loaded(),
            Tab::Applications => {},
        }
    }

    pub fn refresh_systems(&mut self)
        ensures
            systems_refreshed(*old(self), *final(self)),
    {
        if self.is_busy() {
            return;
        }
        self.systems = QueryState::Loading;
        self.error = None;
        self.enqueue(Request::Systems);
    }

    pub fn refresh_catalog(&mut self)
        ensures
            catalog_refreshed(*old(self), *final(self)),
    {
        if self.is_busy() {
            return;
        }
        self.catalog = QueryState::Loading;
        self.error = None;
        self.enqueue(Request::Catalog);
    }

    pub fn refresh_system_details(&mut self)
        ensures
            system_details_refreshed(*old(self), *final(self)),
    {
        if self.is_busy() {
            return;
        }
        let selected = match clone_name(&self.selected_system) {
            Some(name) => name,
            None => {
                return;
            },
        };
        self.system_details = QueryState::Loading;
        self.system_details_target = Some(selected.clone());
        self.error = None;
        self.enqueue(Request::SystemShow { system_name: selected });
    }

    pub fn refresh_details(&mut self)
        ensures
            details_refreshed(*old(self), *final(self)),
    {
        if self.is_busy() {
            return;
        }
        let selected = match clone_name(&self.selected_application) {
            Some(name) => name,
            None => {
                return;
            },
        };
        self.load_observations(selected);
    }

    fn move_system_selection(&mut self, movement: isize)
        ensures
            system_selection_moved(*old(self), movement as int, *final(self)),
    {
        let next = match &self.systems {
            QueryState::Ready(systems) => {
                let names = system_name_list(systems);
                next_selection(&names, name_str(&self.selected_system), movement)
            },
            _ => {
                return;
            },
        };
        self.selected_system = next;
        self.ensure_system_details_loaded();
    }

    pub fn select_next_system(&mut self)
        ensures
            system_selection_moved(*old(self), 1, *final(self)),
    {
        self.move_system_selection(1);
    }

    pub fn select_previous_system(&mut self)
        ensures
            system_selection_moved(*old(self), -1, *final(self)),
    {
        self.move_system_selection(-1);
    }

    fn move_application_selection(&mut self, movement: isize)
        ensures
            application_selection_moved(*old(self), movement as int, *final(self)),
    {
        let next = match &self.catalog {
            QueryState::Ready(entries) => {
                let names = entry_name_list(entries);
                next_selection(&names, name_str(&self.selected_application), movement)
            },
            _ => {
                return;
            },
        };
        self.selected_application = next;
        self.ensure_observations_loaded();
    }

    pub fn select_next(&mut self)
        ensures
            application_selection_moved(*old(self), 1, *final(self)),
    {
        self.move_application_selection(1);
    }

    pub fn select_previous(&mut self)
        ensures
            application_selection_moved(*old(self), -1, *final(self)),
    {
        self.move_application_selection(-1);
    }

    /// A confirmed action replaces every waiting request.
    pub fn execute_action(&mut self, action: PendingAction)
        ensures
            action_executed(*old(self), action, *final(self)),
    {
        self.error = None;
        self.outcome = None;
        self.queued.clear();
        self.enqueue(Request::Action(action));
    }
}

impl Session {
    pub fn action_is_pending(&self) -> (r: bool)
        ensures
            r == action_pending(*self),
    {
        if let Some((_, Request::Action(_))) = &self.active {
            return true;
        }
        let mut i: usize = 0;
        while i < self.queued.len()
            invariant
                i <= self.queued@.len(),
                forall|k: int| 0 <= k < i ==> !(#[trigger] self.queued@[k] is Action),
            decreases self.queued@.len() - i,
        {
            if let Request::Action(_) = &self.queued[i] {
                return true;
            }
            i = i + 1;
        }
        false
    }

    /// The views an action affects reload after it finishes, unless the interface
    /// is quitting or a newer action waits.
    pub fn refresh_after_action(&mut self, action: &PendingAction)
        ensures
            refreshed_after_action(*old(self), *action, *final(self)),
    {
        if self.quit_after_completion || self.action_is_pending() {
            return;
        }
        let ghost before = self.queued@;
        match action {
            PendingAction::SystemCreate { name, .. } => {
                self.systems = QueryState::Loading;
                self.selected_system = Some(name.clone());
                self.enqueue(Request::Systems);
            },
            PendingAction::ImportApplication { system_name, .. } => {
                self.catalog = QueryState::Loading;
                self.enqueue(Request::Catalog);
                if let Some(system_name) = system_name {
                    self.systems = QueryState::Loading;
                    self.enqueue(Request::Systems);
                    if let QueryState::Ready(_) = &self.system_details {
                        self.system_details = QueryState::Loading;
                        self.enqueue(Request::SystemShow { system_name: system_name.clone() });
                        assert(self.queued@ =~= before + seq![
                            Request::Catalog,
                            Request::Systems,
                            Request::SystemShow { system_name: *system_name },
                        ]);
                    } else {
                        assert(self.queued@ =~= before + seq![Request::Catalog, Request::Systems]);
                    }
                }
            },
            PendingAction::Start { application_name } | PendingAction::Stop {
                application_name,
            } => {
                self.catalog = QueryState::Loading;
                self.enqueue(Request::Catalog);
                self.runtime = QueryState::Loading;
                self.enqueue(Request::Status { application_name: application_name.clone() });
                assert(self.queued@ =~= before + seq![
                    Request::Catalog,
                    Request::Status { application_name: *application_name },
                ]);
            },
            PendingAction::Reconcile { application_name }
            | PendingAction::DeployBranch { application_name, .. }
            | PendingAction::DeployImage { application_name, .. }
            | PendingAction::Rollback { application_name } => {
                self.catalog = QueryState::Loading;
                self.enqueue(Request::Catalog);
                self.deployments = QueryState::Loading;
                self.runtime = QueryState::Loading;
                self.enqueue(Request::Deployments { application_name: application_name.clone() });
                self.enqueue(Request::Status { application_name: application_name.clone() });
                assert(self.queued@ =~= before + seq![
                    Request::Catalog,
                    Request::Deployments { application_name: *application_name },
                    Request::Status { application_name: *application_name },
                ]);
            },
            PendingAction::SetVisibility { .. } => {
                self.catalog = QueryState::Loading;
                self.enqueue(Request::Catalog);
            },
        }
    }

    /// A loaded system list keeps the selection when still listed, else selects the
    /// first system, and loads its details.
    pub fn apply_systems(&mut self, systems: Vec<System>)
        ensures
            systems_applied(*old(self), systems, *final(self)),
    {
        let names = system_name_list(&systems);
        let previous = clone_name(&self.selected_system);
        self.selected_system = preserved_selection(&names, previous);
        self.systems = QueryState::Ready(systems);
        self.ensure_system_details_loaded();
    }

    /// A loaded catalog keeps the selection when still listed, else selects the
    /// first application, and loads its observations.
    pub fn apply_catalog(&mut self, entries: Vec<ApplicationCatalogEntry>)
        ensures
            catalog_applied(*old(self), entries, *final(self)),
    {
        let names = entry_name_list(&entries);
        let previous = clone_name(&self.selected_application);
        self.selected_application = preserved_selection(&names, previous);
        self.catalog = QueryState::Ready(entries);
        self.ensure_observations_loaded();
    }

    pub fn apply_error(&mut self, request: Request, error: String)
        ensures
            error_applied(*old(self), request, error, *final(self)),
    {
        match request {
            Request::Systems => self.systems = QueryState::Failed(error.clone()),
            Request::SystemShow { .. } => self.system_details = QueryState::Failed(error.clone()),
            Request::Catalog => {
                self.catalog = QueryState::Failed(error.clone());
                self.selected_application = None;
            },
            Request::Deployments { .. } => self.deployments = QueryState::Failed(error.clone()),
            Request::Status { .. } => self.runtime = QueryState::Failed(error.clone()),
            Request::Action(action) => self.refresh_after_action(&action),
        }
        self.error = Some(error);
    }

    fn apply_unexpected(&mut self, request: Request)
        ensures
            final(self).error matches Some(e) && e@ == "TUI received an unexpected control result"@
                && error_applied(*old(self), request, e, *final(self)),
    {
        self.apply_error(request, "TUI received an unexpected control result".to_owned());
    }
}

fn text_with(prefix: &str, value: &str) -> (r: String)
    ensures
        r@ == prefix@ + value@,
{
    let mut out = prefix.to_owned();
    push_str(&mut out, value);
    out
}

impl Session {
    /// Applies a successful result to the request it answers.
    pub fn apply_success(&mut self, request: Request, result: CommandResult)
        ensures
            success_applied(*old(self), request, result, *final(self)),
    {
        match (request, result) {
            (Request::Systems, CommandResult::Systems(systems)) => self.apply_systems(systems),
            (Request::SystemShow { system_name }, CommandResult::SystemDetails(details)) => {
                if str_eq(system_name.as_str(), details.system.name.as_str()) {
                    self.system_details = QueryState::Ready(details);
                } else {
                    self.apply_unexpected(Request::SystemShow { system_name });
                }
            },
            (Request::Catalog, CommandResult::Applications(entries)) => self.apply_catalog(entries),
            (
                Request::Action(PendingAction::SystemCreate { name, description }),
                CommandResult::SystemCreated(system),
            ) => {
                if str_eq(name.as_str(), system.name.as_str()) {
                    self.outcome = Some(
                        ActionOutcome {
                            scope: system.name.as_str().to_owned(),
                            message: text_with("Created system ", system.name.as_str()),
                        },
                    );
                    self.refresh_after_action(&PendingAction::SystemCreate { name, description });
                } else {
                    self.apply_unexpected(
                        Request::Action(PendingAction::SystemCreate { name, description }),
                    );
                }
            },
            (
                Request::Action(
                    PendingAction::ImportApplication { repository, system_name, manifest_path },
                ),
                CommandResult::ApplicationImported(application),
            ) => {
                self.outcome = Some(
                    ActionOutcome {
                        scope: application.name.as_str().to_owned(),
                        message: text_with("Imported application ", application.name.as_str()),
                    },
                );
                self.selected_application = Some(application.name.as_str().to_owned());
                self.refresh_after_action(
                    &PendingAction::ImportApplication { repository, system_name, manifest_path },
                );
            },
            (
                Request::Deployments { application_name },
                CommandResult::ApplicationDeployments { application_name: result_name, deployments },
            ) => {
                if str_eq(application_name.as_str(), result_name.as_str()) {
                    self.deployments = QueryState::Ready(deployments);
                } else {
                    self.apply_unexpected(Request::Deployments { application_name });
                }
            },
            (
                Request::Status { application_name },
                CommandResult::ApplicationStatus { application_name: result_name, observation },
            ) => {
                if str_eq(application_name.as_str(), result_name.as_str()) {
                    self.runtime = QueryState::Ready(observation);
                } else {
                    self.apply_unexpected(Request::Status { application_name });
                }
            },
            (
                Request::Action(PendingAction::Start { application_name }),
                CommandResult::ApplicationStarted { application_name: result_name, observation },
            ) => {
                if str_eq(application_name.as_str(), result_name.as_str()) {
                    self.runtime = QueryState::Ready(observation);
                    self.outcome = Some(
                        ActionOutcome {
                            scope: application_name.clone(),
                            message: text_with("Started ", result_name.as_str()),
                        },
                    );
                    self.refresh_after_action(&PendingAction::Start { application_name });
                } else {
                    self.apply_unexpected(Request::Action(PendingAction::Start { application_name }));
                }
            },
            (
                Request::Action(PendingAction::Stop { application_name }),
                CommandResult::ApplicationStopped { application_name: result_name, observation },
            ) => {
                if str_eq(application_name.as_str(), result_name.as_str()) {
                    self.runtime = QueryState::Ready(observation);
                    self.outcome = Some(
                        ActionOutcome {
                            scope: application_name.clone(),
                            message: text_with("Stopped ", result_name.as_str()),
                        },
                    );
                    self.refresh_after_action(&PendingAction::Stop { application_name });
                } else {
                    self.apply_unexpected(Request::Action(PendingAction::Stop { application_name }));
                }
            },
            (
                Request::Action(PendingAction::Reconcile { application_name }),
                CommandResult::Reconciled { application_name: result_name, result },
            ) => {
                if str_eq(application_name.as_str(), result_name.as_str()) {
                    self.outcome = Some(
                        ActionOutcome {
                            scope: result_name.as_str().to_owned(),
                            message: reconciliation_result(&result_name, &result),
                        },
                    );
                    self.refresh_after_action(&PendingAction::Reconcile { application_name });
                } else {
                    self.apply_unexpected(
                        Request::Action(PendingAction::Reconcile { application_name }),
                    );
                }
            },
            (
                Request::Action(PendingAction::SetVisibility { application_name, visibility }),
                CommandResult::ExposureChanged { application_name: result_name, change },
            ) => {
                let same_visibility = match (change.visibility, visibility) {
                    (
                        crate::domain::exposure::Visibility::Public,
                        crate::domain::exposure::Visibility::Public,
                    ) => true,
                    (
                        crate::domain::exposure::Visibility::Internal,
                        crate::domain::exposure::Visibility::Internal,
                    ) => true,
                    _ => false,
                };
                if str_eq(application_name.as_str(), result_name.as_str()) && same_visibility {
                    self.outcome = Some(
                        ActionOutcome {
                            scope: result_name.as_str().to_owned(),
                            message: visibility_change(&result_name, &change),
                        },
                    );
                    self.refresh_after_action(
                        &PendingAction::SetVisibility { application_name, visibility },
                    );
                } else {
                    self.apply_unexpected(
                        Request::Action(PendingAction::SetVisibility { application_name, visibility }),
                    );
                }
            },
            (
                Request::Action(PendingAction::DeployBranch { application_name, branch }),
                CommandResult::ApplicationDeployed { application_name: result_name, deployment },
            ) => {
                if str_eq(application_name.as_str(), result_name.as_str()) {
                    self.outcome = Some(
                        ActionOutcome {
                            scope: result_name.as_str().to_owned(),
                            message: deployment_result_message("Deployed", &result_name, &deployment),
                        },
                    );
                    self.refresh_after_action(
                        &PendingAction::DeployBranch { application_name, branch },
                    );
                } else {
                    self.apply_unexpected(
                        Request::Action(PendingAction::DeployBranch { application_name, branch }),
                    );
                }
            },
            (
                Request::Action(PendingAction::DeployImage { application_name, image_reference }),
                CommandResult::ApplicationDeployed { application_name: result_name, deployment },
            ) => {
                if str_eq(application_name.as_str(), result_name.as_str()) {
                    self.outcome = Some(
                        ActionOutcome {
                            scope: result_name.as_str().to_owned(),
                            message: deployment_result_message("Deployed", &result_name, &deployment),
                        },
                    );
                    self.refresh_after_action(
                        &PendingAction::DeployImage { application_name, image_reference },
                    );
                } else {
                    self.apply_unexpected(
                        Request::Action(
                            PendingAction::DeployImage { application_name, image_reference },
                        ),
                    );
                }
            },
            (
                Request::Action(PendingAction::Rollback { application_name }),
                CommandResult::ApplicationRolledBack { application_name: result_name, deployment },
            ) => {
                if str_eq(application_name.as_str(), result_name.as_str()) {
                    self.outcome = Some(
                        ActionOutcome {
                            scope: result_name.as_str().to_owned(),
                            message: deployment_result_message(
                                "Rolled back",
                                &result_name,
                                &deployment,
                            ),
                        },
                    );
                    self.refresh_after_action(&PendingAction::Rollback { application_name });
                } else {
                    self.apply_unexpected(
                        Request::Action(PendingAction::Rollback { application_name }),
                    );
                }
            },
            (request, _) => self.apply_unexpected(request),
        }
    }

    pub fn apply_result(&mut self, request: Request, result: Result<CommandResult, WorkerError>)
        ensures
            result_applied(*old(self), request, result, *final(self)),
    {
        match result {
            Ok(value) => self.apply_success(request, value),
            Err(error) => self.apply_error(request, error.display()),
        }
    }
}

impl Session {
    /// A dispatched deployment opens a new log for its application.
    pub fn dispatch_deployment_log(&mut self)
        ensures
            match old(self).active {
                Some((_, request)) => log_after_dispatch(
                    request,
                    old(self).deployment_log,
                    final(self).deployment_log,
                ),
                None => final(self).deployment_log == old(self).deployment_log,
            },
            *final(self) == (Session { deployment_log: final(self).deployment_log, ..*old(self) }),
    {
        let application_name = match &self.active {
            Some((_, Request::Action(action))) => {
                if action.is_deployment() {
                    match action.application_name() {
                        Some(name) => name.to_owned(),
                        None => {
                            return;
                        },
                    }
                } else {
                    return;
                }
            },
            _ => {
                return;
            },
        };
        self.deployment_log = Some(DeploymentLog::new(application_name));
    }

    /// Dispatches the oldest waiting request when none is dispatched, and returns
    /// its id and the command the worker must run.
    pub fn dispatch_next(&mut self) -> (r: Option<(u64, crate::control::Command)>)
        requires
            old(self).next_request_id < u64::MAX,
        ensures
            dispatched(*old(self), r, *final(self)),
    {
        if self.active.is_some() || self.queued.len() == 0 {
            return None;
        }
        let request = match self.queued.pop_front() {
            Some(request) => request,
            None => {
                return None;
            },
        };
        let id = self.next_request_id;
        self.next_request_id = id + 1;
        let command = request.command();
        self.active = Some((id, request));
        self.dispatch_deployment_log();
        Some((id, command))
    }

    /// A finished deployment closes the log of its application.
    pub fn finish_deployment_log(
        &mut self,
        request: &Request,
        result: &Result<CommandResult, WorkerError>,
    )
        ensures
            log_after_finish(
                *request,
                *result,
                old(self).deployment_log,
                final(self).deployment_log,
            ),
            *final(self) == (Session { deployment_log: final(self).deployment_log, ..*old(self) }),
    {
        let action = match request {
            Request::Action(action) => action,
            _ => {
                return;
            },
        };
        if !action.is_deployment() {
            return;
        }
        let belongs = match (&self.deployment_log, action.application_name()) {
            (Some(log), Some(name)) => str_eq(log.application_name.as_str(), name),
            _ => false,
        };
        if !belongs {
            return;
        }
        match &mut self.deployment_log {
            Some(log) => log.finish(result),
            None => {},
        }
    }

    /// A deployment event from the worker for the dispatched request.
    pub fn receive_event(&mut self, id: u64, event: DeploymentEvent) -> (r: Result<(), SessionError>)
        ensures
            event_received(*old(self), id, event, r, *final(self)),
    {
        let deployment_active = match &self.active {
            None => {
                return Err(SessionError::UnexpectedReply);
            },
            Some((active_id, request)) => {
                if id != *active_id {
                    return Err(SessionError::ReplyOrderChanged);
                }
                match request {
                    Request::Action(action) => action.is_deployment(),
                    _ => false,
                }
            },
        };
        if deployment_active {
            match &mut self.deployment_log {
                Some(log) => log.record_event(&event),
                None => {},
            }
        }
        Ok(())
    }

    /// The worker's result for the dispatched request: closes its deployment log
    /// and applies the result.
    pub fn receive_finished(
        &mut self,
        id: u64,
        result: Result<CommandResult, WorkerError>,
    ) -> (r: Result<(), SessionError>)
        ensures
            finished_received(*old(self), id, result, r, *final(self)),
    {
        let mut active: Option<(u64, Request)> = None;
        std::mem::swap(&mut active, &mut self.active);
        let (active_id, request) = match active {
            Some(pair) => pair,
            None => {
                return Err(SessionError::UnexpectedReply);
            },
        };
        if id != active_id {
            return Err(SessionError::ReplyOrderChanged);
        }
        self.finish_deployment_log(&request, &result);
        self.apply_result(request, result);
        Ok(())
    }
}

/// The outcome line shown in the selected application's details.
pub open spec fn detail_outcome(s: Session) -> Option<Seq<char>> {
    match s.outcome {
        Some(o) => if opt_view(s.selected_application) == Some(o.scope@) {
            Some(o.message@)
        } else {
            None
        },
        None => None,
    }
}

/// The outcome line shown in the loaded system's details.
pub open spec fn system_detail_outcome(s: Session) -> Option<Seq<char>> {
    match (s.system_details, s.outcome) {
        (QueryState::Ready(details), Some(o)) => if details.system.name@ == o.scope@ {
            Some(o.message@)
        } else {
            None
        },
        _ => None,
    }
}

/// The runtime status is shown only for the application it was loaded for.
pub open spec fn detail_runtime_shown(s: Session) -> bool {
    s.selected_application matches Some(selected) && opt_view(s.observations_application) == Some(
        selected@,
    )
}

impl Session {
    pub fn log_is_for_detail(&self) -> (r: bool)
        ensures
            r == log_for_detail(*self),
    {
        match &self.deployment_log {
            Some(log) => name_is(&self.selected_application, log.application_name.as_str()),
            None => false,
        }
    }

    /// The deployment log of the selected application, if it has one.
    pub fn deployment_log_for_detail(&self) -> (r: Option<&DeploymentLog>)
        ensures
            r is Some == log_for_detail(*self),
            r matches Some(log) ==> Some(*log) == self.deployment_log,
    {
        if self.log_is_for_detail() {
            self.deployment_log.as_ref()
        } else {
            None
        }
    }

    pub fn outcome_for_detail(&self) -> (r: Option<&str>)
        ensures
            match (r, detail_outcome(*self)) {
                (Some(x), Some(y)) => x@ == y,
                (None, None) => true,
                _ => false,
            },
    {
        match &self.outcome {
            Some(outcome) => if name_is(&self.selected_application, outcome.scope.as_str()) {
                Some(outcome.message.as_str())
            } else {
                None
            },
            None => None,
        }
    }

    pub fn outcome_for_system_detail(&self) -> (r: Option<&str>)
        ensures
            match (r, system_detail_outcome(*self)) {
                (Some(x), Some(y)) => x@ == y,
                (None, None) => true,
                _ => false,
            },
    {
        match (&self.system_details, &self.outcome) {
            (QueryState::Ready(details), Some(outcome)) => if str_eq(
                details.system.name.as_str(),
                outcome.scope.as_str(),
            ) {
                Some(outcome.message.as_str())
            } else {
                None
            },
            _ => None,
        }
    }

    /// The runtime status for the selected application, when it was loaded for it.
    pub fn runtime_for_detail(&self) -> (r: Option<&QueryState<RuntimeObservation>>)
        ensures
            r is Some == detail_runtime_shown(*self),
            r matches Some(state) ==> *state == self.runtime,
    {
        match &self.selected_application {
            Some(selected) => if name_is(&self.observations_application, selected.as_str()) {
                Some(&self.runtime)
            } else {
                None
            },
            None => None,
        }
    }

    /// The catalog entry of the selected application.
    pub fn selected_entry(&self) -> (r: Option<&ApplicationCatalogEntry>)
        ensures
            match (self.catalog, self.selected_application) {
                (QueryState::Ready(entries), Some(selected)) => match r {
                    Some(entry) => entries@.contains(*entry) && entry.summary.name@ == selected@,
                    None => forall|i: int|
                        0 <= i < entries@.len() ==> (#[trigger] entries@[i]).summary.name@
                            != selected@,
                },
                _ => r is None,
            },
    {
        let entries = match &self.catalog {
            QueryState::Ready(entries) => entries,
            _ => {
                return None;
            },
        };
        let selected = match &self.selected_application {
            Some(selected) => selected,
            None => {
                return None;
            },
        };
        let mut i: usize = 0;
        while i < entries.len()
            invariant
                i <= entries@.len(),
                self.catalog == QueryState::Ready(*entries),
                self.selected_application == Some(*selected),
                forall|k: int| 0 <= k < i ==> (#[trigger] entries@[k]).summary.name@ != selected@,
            decreases entries@.len() - i,
        {
            if str_eq(entries[i].summary.name.as_str(), selected.as_str()) {
                assert(entries@.contains(entries@[i as int]));
                return Some(&entries[i]);
            }
            i = i + 1;
        }
        None
    }

    pub fn log_page_rows(&self) -> (r: u16)
        ensures
            r == page_rows(*self),
    {
        if !self.log_is_for_detail() {
            return 1;
        }
        match &self.deployment_log {
            Some(log) => if log.viewport_rows > 1 {
                log.viewport_rows
            } else {
                1
            },
            None => 1,
        }
    }

    pub fn scroll_deployment_log_up(&mut self, rows: u16)
        ensures
            detail_log_changed(
                *old(self),
                *final(self),
                |l: DeploymentLog, m: DeploymentLog| log_scrolled_up(l, rows, m),
            ),
    {
        if !self.log_is_for_detail() {
            return;
        }
        match &mut self.deployment_log {
            Some(log) => log.scroll_up(rows),
            None => {},
        }
    }

    pub fn scroll_deployment_log_down(&mut self, rows: u16)
        ensures
            detail_log_changed(
                *old(self),
                *final(self),
                |l: DeploymentLog, m: DeploymentLog| log_scrolled_down(l, rows, m),
            ),
    {
        if !self.log_is_for_detail() {
            return;
        }
        match &mut self.deployment_log {
            Some(log) => log.scroll_down(rows),
            None => {},
        }
    }

    pub fn scroll_deployment_log_to_start(&mut self)
        ensures
            detail_log_changed(
                *old(self),
                *final(self),
                |l: DeploymentLog, m: DeploymentLog| log_moved_to_start(l, m),
            ),
    {
        if !self.log_is_for_detail() {
            return;
        }
        match &mut self.deployment_log {
            Some(log) => log.scroll_to_start(),
            None => {},
        }
    }

    pub fn scroll_deployment_log_to_end(&mut self)
        ensures
            detail_log_changed(
                *old(self),
                *final(self),
                |l: DeploymentLog, m: DeploymentLog| log_moved_to_end(l, m),
            ),
    {
        if !self.log_is_for_detail() {
            return;
        }
        match &mut self.deployment_log {
            Some(log) => log.scroll_to_end(),
            None => {},
        }
    }

    /// Records the rendered metrics of the selected application's log panel: the
    /// visible rows and the wrapped row count, against which scrolling clamps.
    pub fn update_deployment_log_metrics(&mut self, viewport_rows: u16, total_rows: u16)
        ensures
            detail_log_changed(
                *old(self),
                *final(self),
                |l: DeploymentLog, m: DeploymentLog|
                    m == (DeploymentLog { viewport_rows, total_rows, ..l }),
            ),
    {
        if !self.log_is_for_detail() {
            return;
        }
        match &mut self.deployment_log {
            Some(log) => {
                log.viewport_rows = viewport_rows;
                log.total_rows = total_rows;
            },
            None => {},
        }
    }
}

fn is_char(code: KeyCode, expected: char) -> (r: bool)
    ensures
        r == (code == KeyCode::Char(expected)),
{
    match code {
        KeyCode::Char(c) => c == expected,
        _ => false,
    }
}

fn is_down_key(key: KeyEvent) -> (r: bool)
    ensures
        r == is_down(key),
{
    matches!(key.code, KeyCode::Down) || is_char(key.code, 'j')
}

fn is_up_key(key: KeyEvent) -> (r: bool)
    ensures
        r == is_up(key),
{
    matches!(key.code, KeyCode::Up) || is_char(key.code, 'k')
}

impl Session {
    /// Routes a key to the modal that owns the keyboard, or to navigation.
    pub fn handle_key(&mut self, key: KeyEvent)
        requires
            session_wf(*old(self)),
        ensures
            key_handled(*old(self), key, *final(self)),
            session_wf(*final(self)),
    {
        match &self.mode {
            Mode::Form(_) => {
                self.handle_form_key(key);
                return;
            },
            Mode::Deploy(_) => {
                self.handle_deploy_form_key(key);
                return;
            },
            Mode::Confirm(_) => {
                self.handle_confirmation(key);
                return;
            },
            Mode::Normal => {},
        }
        self.handle_normal_key(key);
    }

    fn handle_normal_key(&mut self, key: KeyEvent)
        requires
            old(self).mode is Normal,
        ensures
            normal_key_handled(*old(self), key, *final(self)),
            session_wf(*final(self)),
    {
        let code = key.code;
        if is_char(code, 'q') || (is_char(code, 'c') && key.control) {
            self.request_quit();
            return;
        }
        let tab_target = if is_char(code, '1') {
            Some(Tab::Systems)
        } else if is_char(code, '2') {
            Some(Tab::Applications)
        } else if is_char(code, '3') {
            Some(Tab::Deployments)
        } else if matches!(code, KeyCode::Tab) {
            Some(self.tab.next())
        } else if matches!(code, KeyCode::BackTab) {
            Some(self.tab.previous())
        } else {
            None
        };
        if let Some(tab) = tab_target {
            self.switch_tab(tab);
            return;
        }
        let has_log = self.log_is_for_detail();
        let focus_target = match (self.focus, code) {
            (Focus::Log, KeyCode::Left) | (Focus::Log, KeyCode::Esc) => Some(Focus::Details),
            (Focus::Details, KeyCode::Left) | (Focus::Details, KeyCode::Esc) => Some(Focus::Listing),
            (Focus::Details, KeyCode::Enter) => if has_log {
                Some(Focus::Log)
            } else {
                None
            },
            (Focus::Listing, KeyCode::Enter) => Some(Focus::Details),
            _ => None,
        };
        if let Some(focus) = focus_target {
            self.focus = focus;
            return;
        }
        let idle = !self.is_busy();
        if matches!(self.focus, Focus::Listing) && matches!(code, KeyCode::Left) && idle {
            let tab = self.tab.previous();
            self.switch_tab(tab);
            return;
        }
        if matches!(self.focus, Focus::Listing) && matches!(code, KeyCode::Right) && idle {
            let tab = self.tab.next();
            self.switch_tab(tab);
            return;
        }
        self.handle_pane_key(key);
    }

    fn confirm_selected(&mut self, kind: u8)
        requires
            kind < 5,
        ensures
            kind == 0 ==> selected_action_confirmed(
                *old(self),
                *final(self),
                |n: String| PendingAction::Start { application_name: n },
            ),
            kind == 1 ==> selected_action_confirmed(
                *old(self),
                *final(self),
                |n: String| PendingAction::Stop { application_name: n },
            ),
            kind == 2 ==> selected_action_confirmed(
                *old(self),
                *final(self),
                |n: String| PendingAction::Reconcile { application_name: n },
            ),
            kind == 3 ==> selected_action_confirmed(
                *old(self),
                *final(self),
                |n: String| PendingAction::Rollback { application_name: n },
            ),
            kind == 4 ==> selected_action_confirmed(
                *old(self),
                *final(self),
                |n: String|
                    PendingAction::SetVisibility {
                        application_name: n,
                        visibility: crate::domain::exposure::Visibility::Public,
                    },
            ),
    {
        let application_name = match clone_name(&self.selected_application) {
            Some(name) => name,
            None => {
                return;
            },
        };
        let action = if kind == 0 {
            PendingAction::Start { application_name }
        } else if kind == 1 {
            PendingAction::Stop { application_name }
        } else if kind == 2 {
            PendingAction::Reconcile { application_name }
        } else if kind == 3 {
            PendingAction::Rollback { application_name }
        } else {
            PendingAction::SetVisibility {
                application_name,
                visibility: crate::domain::exposure::Visibility::Public,
            }
        };
        self.confirm(action);
    }

    fn confirm_selected_internal(&mut self)
        ensures
            selected_action_confirmed(
                *old(self),
                *final(self),
                |n: String|
                    PendingAction::SetVisibility {
                        application_name: n,
                        visibility: crate::domain::exposure::Visibility::Internal,
                    },
            ),
    {
        match clone_name(&self.selected_application) {
            Some(application_name) => self.confirm(
                PendingAction::SetVisibility {
                    application_name,
                    visibility: crate::domain::exposure::Visibility::Internal,
                },
            ),
            None => {},
        }
    }

    fn handle_pane_key(&mut self, key: KeyEvent)
        requires
            old(self).mode is Normal,
        ensures
            pane_key_handled(*old(self), key, *final(self)),
            session_wf(*final(self)),
    {
        let idle = !self.is_busy();
        let down = is_down_key(key);
        let up = is_up_key(key);
        let code = key.code;
        match (self.tab, self.focus) {
            (Tab::Systems, Focus::Listing) => {
                if down && idle {
                    self.select_next_system();
                } else if up && idle {
                    self.select_previous_system();
                } else if is_char(code, 'n') && idle {
                    self.open_system_create_form();
                } else if is_char(code, 'a') && idle {
                    self.add_application_to_selected_system();
                } else if is_char(code, 'r') && idle {
                    self.refresh_systems();
                }
            },
            (Tab::Systems, Focus::Details) => {
                if down && idle {
                    self.select_next_system();
                } else if up && idle {
                    self.select_previous_system();
                } else if is_char(code, 'a') && idle {
                    self.add_application_to_selected_system();
                } else if is_char(code, 'r') && idle {
                    self.refresh_system_details();
                }
            },
            (Tab::Applications, Focus::Listing) => {
                if down && idle {
                    self.select_next();
                } else if up && idle {
                    self.select_previous();
                } else if is_char(code, 'n') && idle {
                    self.open_application_import_form();
                } else if is_char(code, 'r') && idle {
                    self.refresh_catalog();
                }
            },
            (Tab::Applications, Focus::Details) => {
                if down && idle {
                    self.select_next();
                } else if up && idle {
                    self.select_previous();
                } else if is_char(code, 'r') && idle {
                    self.refresh_details();
                } else if is_char(code, 's') {
                    self.confirm_selected(0);
                } else if is_char(code, 'x') {
                    self.confirm_selected(1);
                } else if is_char(code, 'c') {
                    self.confirm_selected(2);
                } else if is_char(code, 'd') {
                    match clone_name(&self.selected_application) {
                        Some(application_name) => self.open_deploy_form(application_name),
                        None => {},
                    }
                } else if is_char(code, 'b') {
                    self.confirm_selected(3);
                } else if is_char(code, 'p') {
                    self.confirm_selected(4);
                } else if is_char(code, 'i') {
                    self.confirm_selected_internal();
                }
            },
            (Tab::Applications, Focus::Log) => {
                if up {
                    self.scroll_deployment_log_up(1);
                } else if down {
                    self.scroll_deployment_log_down(1);
                } else if matches!(code, KeyCode::PageUp) {
                    let rows = self.log_page_rows();
                    self.scroll_deployment_log_up(rows);
                } else if matches!(code, KeyCode::PageDown) {
                    let rows = self.log_page_rows();
                    self.scroll_deployment_log_down(rows);
                } else if matches!(code, KeyCode::Home) {
                    self.scroll_deployment_log_to_start();
                } else if matches!(code, KeyCode::End) {
                    self.scroll_deployment_log_to_end();
                }
            },
            (Tab::Deployments, Focus::Listing) => {
                if down && idle {
                    self.select_next();
                } else if up && idle {
                    self.select_previous();
                } else if is_char(code, 'r') && idle {
                    self.refresh_catalog();
                }
            },
            (Tab::Deployments, Focus::Details) => {
                if down && idle {
                    self.select_next();
                } else if up && idle {
                    self.select_previous();
                } else if is_char(code, 'r') && idle {
                    self.refresh_details();
                }
            },
            (_, Focus::Log) => {},
        }
    }

    fn handle_form_key(&mut self, key: KeyEvent)
        requires
            session_wf(*old(self)),
        ensures
            match old(self).mode {
                Mode::Form(form) => form_key_handled(*old(self), form, key, *final(self)),
                _ => *final(self) == *old(self),
            },
            session_wf(*final(self)),
    {
        let mut mode = Mode::Normal;
        std::mem::swap(&mut mode, &mut self.mode);
        let mut form = match mode {
            Mode::Form(form) => form,
            other => {
                self.mode = other;
                return;
            },
        };
        if is_char(key.code, 'c') && key.control {
            self.request_quit();
            return;
        }
        match key.code {
            KeyCode::Esc => {},
            KeyCode::Enter => match form.submit() {
                Some(action) => self.execute_action(action),
                None => self.mode = Mode::Form(form),
            },
            KeyCode::Backspace => {
                form.backspace();
                self.mode = Mode::Form(form);
            },
            KeyCode::Tab | KeyCode::Down => {
                form.focus_next();
                self.mode = Mode::Form(form);
            },
            KeyCode::BackTab | KeyCode::Up => {
                form.focus_previous();
                self.mode = Mode::Form(form);
            },
            KeyCode::Char(character) => {
                form.push(character);
                self.mode = Mode::Form(form);
            },
            _ => self.mode = Mode::Form(form),
        }
    }

    fn handle_deploy_form_key(&mut self, key: KeyEvent)
        ensures
            match old(self).mode {
                Mode::Deploy(form) => deploy_key_handled(*old(self), form, key, *final(self)),
                _ => *final(self) == *old(self),
            },
            old(self).mode is Deploy ==> session_wf(*final(self)),
    {
        let mut mode = Mode::Normal;
        std::mem::swap(&mut mode, &mut self.mode);
        let mut form = match mode {
            Mode::Deploy(form) => form,
            other => {
                self.mode = other;
                return;
            },
        };
        if is_char(key.code, 'c') && key.control {
            self.request_quit();
            return;
        }
        match key.code {
            KeyCode::Esc => {},
            KeyCode::Enter => match form.submit() {
                Some(action) => self.execute_action(action),
                None => self.mode = Mode::Deploy(form),
            },
            KeyCode::Backspace => {
                form.backspace();
                self.mode = Mode::Deploy(form);
            },
            KeyCode::Tab | KeyCode::Left | KeyCode::Right => {
                form.toggle_source();
                self.mode = Mode::Deploy(form);
            },
            KeyCode::Char(character) => {
                form.push(character);
                self.mode = Mode::Deploy(form);
            },
            _ => self.mode = Mode::Deploy(form),
        }
    }

    fn handle_confirmation(&mut self, key: KeyEvent)
        ensures
            match old(self).mode {
                Mode::Confirm(action) => confirmation_key_handled(
                    *old(self),
                    action,
                    key,
                    *final(self),
                ),
                _ => *final(self) == *old(self),
            },
            old(self).mode is Confirm ==> session_wf(*final(self)),
    {
        let mut mode = Mode::Normal;
        std::mem::swap(&mut mode, &mut self.mode);
        let action = match mode {
            Mode::Confirm(action) => action,
            other => {
                self.mode = other;
                return;
            },
        };
        match key.code {
            KeyCode::Enter => self.execute_action(action),
            KeyCode::Esc => {},
            KeyCode::Char(character) => {
                if character == 'y' {
                    self.execute_action(action);
                } else if character != 'n' {
                    self.mode = Mode::Confirm(action);
                }
            },
            _ => self.mode = Mode::Confirm(action),
        }
    }
}

/// While work is dispatched or waiting, no key pressed during navigation starts
/// more work: the dispatched request stays, and the waiting queue is unchanged
/// unless quitting drops it.
pub proof fn lemma_navigation_starts_no_work_while_busy(s: Session, key: KeyEvent, t: Session)
    requires
        busy(s),
        s.mode is Normal,
        key_handled(s, key, t),
    ensures
        t.active == s.active,
        t.queued@ == s.queued@ || (quits(key) && t.queued@.len() == 0),
{
}

/// Moving the focus between the listing, the details, and the log never starts work
/// and never changes the tab or the selection.
pub proof fn lemma_focus_moves_start_no_work(s: Session, key: KeyEvent, t: Session)
    requires
        s.mode is Normal,
        !quits(key),
        tab_key_target(key, s.tab) is None,
        focus_target(s, key) is Some,
        key_handled(s, key, t),
    ensures
        t.queued == s.queued,
        t.active == s.active,
        t.tab == s.tab,
        t.selected_application == s.selected_application,
        t.selected_system == s.selected_system,
{
}

/// Scrolling the deployment log, even while a command runs, never changes the
/// selection and never issues a command.
pub proof fn lemma_log_scrolling_keeps_selection_and_work(s: Session, key: KeyEvent, t: Session)
    requires
        s.mode is Normal,
        s.tab == Tab::Applications,
        s.focus == Focus::Log,
        is_up(key) || is_down(key) || key.code == KeyCode::PageUp || key.code == KeyCode::PageDown
            || key.code == KeyCode::Home || key.code == KeyCode::End,
        key_handled(s, key, t),
    ensures
        t.selected_application == s.selected_application,
        t.queued == s.queued,
        t.active == s.active,
        t.focus == s.focus,
{
}

/// An open form owns printable text: a character without Control edits the form
/// instead of quitting or navigating.
pub proof fn lemma_forms_own_printable_keys(s: Session, key: KeyEvent, t: Session)
    requires
        s.mode is Form || s.mode is Deploy,
        key.code is Char,
        !key.control,
        key_handled(s, key, t),
    ensures
        t.quit_after_completion == s.quit_after_completion,
        t.queued == s.queued,
        s.mode is Form ==> t.mode is Form,
        s.mode is Deploy ==> t.mode is Deploy,
{
}

/// A confirmation owns the keyboard until the operator confirms (Enter or `y`) or
/// cancels (Esc or `n`); every other key, `q` included, changes nothing.
pub proof fn lemma_confirmation_owns_the_keyboard(s: Session, key: KeyEvent, t: Session)
    requires
        s.mode is Confirm,
        key.code != KeyCode::Enter,
        key.code != KeyCode::Esc,
        key.code != KeyCode::Char('y'),
        key.code != KeyCode::Char('n'),
        key_handled(s, key, t),
    ensures
        t == s,
{
}

/// At most one request is with the worker: nothing is dispatched while one is, and
/// each dispatch takes the oldest waiting request under a fresh, increasing id.
pub proof fn lemma_one_request_in_flight(
    s: Session,
    r: Option<(u64, crate::control::Command)>,
    t: Session,
)
    requires
        s.next_request_id < u64::MAX,
        dispatched(s, r, t),
    ensures
        s.active is Some ==> r is None && t == s,
        r matches Some((id, _)) ==> id == s.next_request_id && t.next_request_id == id + 1 && (
        t.active matches Some((active_id, request)) && active_id == id && request == s.queued@[0]),
{
}

/// A waiting or dispatched action suppresses the refresh of an earlier action, so
/// the newer action's work is never displaced.
pub proof fn lemma_newer_action_suppresses_refresh(s: Session, action: PendingAction, t: Session)
    requires
        action_pending(s),
        refreshed_after_action(s, action, t),
    ensures
        t == s,
{
}

/// A deployment log is replaced only when a new deployment is dispatched: other
/// dispatches, and the events and results of any request, keep its lines.
pub proof fn lemma_log_lines_survive_finishing(
    s: Session,
    id: u64,
    result: Result<CommandResult, WorkerError>,
    t: Session,
)
    requires
        finished_received(s, id, result, Ok(()), t),
        s.deployment_log is Some,
    ensures
        t.deployment_log matches Some(log) && log.lines == s.deployment_log->0.lines
            && log.application_name == s.deployment_log->0.application_name,
{
}

} // verus!
