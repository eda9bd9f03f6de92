//! The interactive terminal interface's pure state: tabs, the deployment log and
//! its scrolling, actions awaiting confirmation and the commands they issue, the
//! deploy and multi-field forms, list selection, and the text these show. Drawing
//! and the terminal event loop stay with the terminal adapter.

use vstd::prelude::*;

use crate::cli::error::{cli_error_class, cli_error_message, CliError, CliErrorClass};
use crate::cli::output::{visibility_label, visibility_text};
use crate::cli::progress::{event_line, render_deployment_event};
use crate::control::outcome::{ApplicationCatalogEntry, DeploymentEvent, DeploymentResult};
use crate::control::{Command, CommandResult};
use crate::domain::application::ApplicationName;
use crate::domain::exposure::Visibility;
use crate::domain::git::{
    is_remote_git_location, relative_manifest_path, remote_git_location, RelativeManifestPath,
};
use crate::domain::identity::valid_catalog_name;
use crate::domain::system::{System, SystemName};
use crate::text::{pop_char, push_char, push_str, str_eq};

verus! {

/// Command groups own one top-level tab each.
#[derive(Clone, Copy, Debug, PartialEq, Eq, Structural)]
pub enum Tab {
    Systems,
    Applications,
    Deployments,
}

pub open spec fn tab_index(tab: Tab) -> int {
    match tab {
        Tab::Systems => 0,
        Tab::Applications => 1,
        Tab::Deployments => 2,
    }
}

pub open spec fn tab_at(index: int) -> Tab {
    if index == 0 {
        Tab::Systems
    } else if index == 1 {
        Tab::Applications
    } else {
        Tab::Deployments
    }
}

impl Tab {
    pub fn index(self) -> (r: usize)
        ensures
            r == tab_index(self),
    {
        match self {
            Tab::Systems => 0,
            Tab::Applications => 1,
            Tab::Deployments => 2,
        }
    }

    /// Tabs cycle: any index selects the tab at that position modulo the tab count.
    pub fn from_index(index: usize) -> (r: Tab)
        ensures
            r == tab_at(index as int % 3),
    {
        match index % 3 {
            0 => Tab::Systems,
            1 => Tab::Applications,
            _ => Tab::Deployments,
        }
    }

    pub fn label(self) -> (r: &'static str)
        ensures
            r@ == match self {
                Tab::Systems => "Systems"@,
                Tab::Applications => "Applications"@,
                Tab::Deployments => "Deployments"@,
            },
    {
        match self {
            Tab::Systems => "Systems",
            Tab::Applications => "Applications",
            Tab::Deployments => "Deployments",
        }
    }

    pub fn next(self) -> (r: Tab)
        ensures
            r == tab_at((tab_index(self) + 1) % 3),
    {
        Self::from_index(self.index() + 1)
    }

    pub fn previous(self) -> (r: Tab)
        ensures
            r == tab_at((tab_index(self) + 2) % 3),
    {
        Self::from_index(self.index() + 3 - 1)
    }
}

/// Moving to the next tab and back, or back and then forward, returns to the same
/// tab, and three moves in one direction visit every tab once.
pub proof fn lemma_tab_navigation_cycles(tab: Tab)
    ensures
        tab_at((tab_index(tab_at((tab_index(tab) + 1) % 3)) + 2) % 3) == tab,
        tab_at((tab_index(tab_at((tab_index(tab) + 2) % 3)) + 1) % 3) == tab,
        tab_at((tab_index(tab) + 1) % 3) != tab,
        tab_at((tab_index(tab) + 2) % 3) != tab,
{
}

/// Whether a dispatched deployment is still running, finished, or failed.
#[derive(Clone, Debug, PartialEq, Eq)]
pub enum DeploymentLogState {
    Running,
    Completed,
    Failed(String),
}

pub fn deployment_log_state_label(state: &DeploymentLogState) -> (r: &'static str)
    ensures
        r@ == match *state {
            DeploymentLogState::Running => "running"@,
            DeploymentLogState::Completed => "completed"@,
            DeploymentLogState::Failed(_) => "failed"@,
        },
{
    match state {
        DeploymentLogState::Running => "running",
        DeploymentLogState::Completed => "completed",
        DeploymentLogState::Failed(_) => "failed",
    }
}

/// A session-only log of one dispatched deployment, retained after it finishes. The
/// view follows the tail until scrolled away; `total_rows` and `viewport_rows` are
/// the metrics recorded by the last render.
#[derive(Clone, Debug)]
pub struct DeploymentLog {
    pub application_name: String,
    pub lines: Vec<String>,
    pub state: DeploymentLogState,
    pub scroll: u16,
    pub tail_follow: bool,
    pub total_rows: u16,
    pub viewport_rows: u16,
}

/// The furthest the view can scroll: rows beyond one viewport.
pub open spec fn max_scroll(log: DeploymentLog) -> int {
    if log.total_rows >= log.viewport_rows {
        log.total_rows - log.viewport_rows
    } else {
        0
    }
}

/// The first visible row: the tail when following it, else the anchor clamped to the
/// furthest scroll.
pub open spec fn render_offset(log: DeploymentLog) -> int {
    if log.tail_follow {
        max_scroll(log)
    } else if log.scroll <= max_scroll(log) {
        log.scroll as int
    } else {
        max_scroll(log)
    }
}

/// The line a deployment event adds to the log.
pub open spec fn log_line(event: DeploymentEvent) -> Seq<char> {
    match event {
        DeploymentEvent::DeploymentRequested { application_name } => "Deploying "@
            + application_name@ + "..."@,
        _ => event_line(event),
    }
}

pub fn deployment_event_line(event: &DeploymentEvent) -> (r: String)
    ensures
        r@ == log_line(*event),
{
    match event {
        DeploymentEvent::DeploymentRequested { application_name } => {
            let mut out = "Deploying ".to_owned();
            push_str(&mut out, application_name.as_str());
            push_str(&mut out, "...");
            out
        },
        _ => render_deployment_event(event),
    }
}

/// `m` is `l` with only its view position changed.
pub open spec fn same_log_content(l: DeploymentLog, m: DeploymentLog) -> bool {
    &&& m.application_name == l.application_name
    &&& m.total_rows == l.total_rows
    &&& m.viewport_rows == l.viewport_rows
    &&& m.lines == l.lines
    &&& m.state == l.state
}

/// The first visible row before a scroll: the tail when following it.
pub open spec fn scroll_anchor(l: DeploymentLog) -> int {
    if l.tail_follow {
        max_scroll(l)
    } else {
        l.scroll as int
    }
}

/// Scrolling up detaches the view from the tail and moves `rows` up from the anchor,
/// stopping at the oldest row.
pub open spec fn log_scrolled_up(l: DeploymentLog, rows: u16, m: DeploymentLog) -> bool {
    &&& same_log_content(l, m)
    &&& !m.tail_follow
    &&& m.scroll == (if scroll_anchor(l) >= rows {
        scroll_anchor(l) - rows
    } else {
        0
    })
}

/// Scrolling down moves a detached view `rows` down and resumes following the tail
/// once it reaches the bottom; a view following the tail stays as it is.
pub open spec fn log_scrolled_down(l: DeploymentLog, rows: u16, m: DeploymentLog) -> bool {
    if l.tail_follow {
        m == l
    } else if l.scroll + rows >= max_scroll(l) {
        same_log_content(l, m) && m.tail_follow && m.scroll == max_scroll(l)
    } else {
        same_log_content(l, m) && !m.tail_follow && m.scroll == l.scroll + rows
    }
}

pub open spec fn log_moved_to_start(l: DeploymentLog, m: DeploymentLog) -> bool {
    same_log_content(l, m) && !m.tail_follow && m.scroll == 0
}

pub open spec fn log_moved_to_end(l: DeploymentLog, m: DeploymentLog) -> bool {
    same_log_content(l, m) && m.tail_follow && m.scroll == max_scroll(l)
}

/// `m` is `l` with the line for `event` appended.
pub open spec fn log_appended(l: DeploymentLog, event: DeploymentEvent, m: DeploymentLog) -> bool {
    &&& m == DeploymentLog { lines: m.lines, ..l }
    &&& m.lines@.len() == l.lines@.len() + 1
    &&& forall|i: int| 0 <= i < l.lines@.len() ==> m.lines@[i] == l.lines@[i]
    &&& m.lines@.last()@ == log_line(event)
}

/// `m` is `l` recording how the deployment ended: completed, or failed with the
/// displayed error.
pub open spec fn log_closed(
    l: DeploymentLog,
    result: Result<CommandResult, WorkerError>,
    m: DeploymentLog,
) -> bool {
    &&& m == DeploymentLog { state: m.state, ..l }
    &&& match result {
        Ok(_) => m.state == DeploymentLogState::Completed,
        Err(error) => m.state matches DeploymentLogState::Failed(text) && text@ == worker_error_text(
            error,
        ),
    }
}

/// A new log for `application_name`: running, empty, following its tail.
pub open spec fn fresh_log(log: DeploymentLog, application_name: Seq<char>) -> bool {
    &&& log.application_name@ == application_name
    &&& log.lines@.len() == 0
    &&& log.state == DeploymentLogState::Running
    &&& log.scroll == 0
    &&& log.tail_follow
    &&& log.total_rows == 0
    &&& log.viewport_rows == 0
}

impl DeploymentLog {
    /// A running, empty log that follows its tail.
    pub fn new(application_name: String) -> (r: Self)
        ensures
            r.application_name == application_name,
            r.lines@.len() == 0,
            r.state == DeploymentLogState::Running,
            r.scroll == 0,
            r.tail_follow,
            r.total_rows == 0,
            r.viewport_rows == 0,
    {
        DeploymentLog {
            application_name,
            lines: Vec::new(),
            state: DeploymentLogState::Running,
            scroll: 0,
            tail_follow: true,
            total_rows: 0,
            viewport_rows: 0,
        }
    }

    pub fn record_event(&mut self, event: &DeploymentEvent)
        ensures
            log_appended(*old(self), *event, *final(self)),
    {
        let line = deployment_event_line(event);
        self.lines.push(line);
    }

    /// Records how the deployment ended: completed, or failed with the displayed error.
    pub fn finish(&mut self, result: &Result<CommandResult, WorkerError>)
        ensures
            log_closed(*old(self), *result, *final(self)),
    {
        self.state = match result {
            Ok(_) => DeploymentLogState::Completed,
            Err(error) => DeploymentLogState::Failed(error.display()),
        };
    }

    pub fn max_scroll(&self) -> (r: u16)
        ensures
            r == max_scroll(*self),
    {
        if self.total_rows >= self.viewport_rows {
            self.total_rows - self.viewport_rows
        } else {
            0
        }
    }

    pub fn render_offset(&self) -> (r: u16)
        ensures
            r == render_offset(*self),
    {
        if self.tail_follow {
            self.max_scroll()
        } else {
            let max = self.max_scroll();
            if self.scroll <= max {
                self.scroll
            } else {
                max
            }
        }
    }

    /// Detaches from the tail, anchored where the view was, then moves up.
    pub fn scroll_up(&mut self, rows: u16)
        ensures
            log_scrolled_up(*old(self), rows, *final(self)),
    {
        let anchored = if self.tail_follow {
            self.max_scroll()
        } else {
            self.scroll
        };
        self.tail_follow = false;
        self.scroll = if anchored >= rows {
            anchored - rows
        } else {
            0
        };
    }

    /// Moves a detached view down; reaching the bottom resumes following the tail.
    pub fn scroll_down(&mut self, rows: u16)
        ensures
            log_scrolled_down(*old(self), rows, *final(self)),
    {
        if self.tail_follow {
            return;
        }
        self.scroll = if self.scroll <= u16::MAX - rows {
            self.scroll + rows
        } else {
            u16::MAX
        };
        let max = self.max_scroll();
        if self.scroll >= max {
            self.scroll = max;
            self.tail_follow = true;
        }
    }

    pub fn scroll_to_start(&mut self)
        ensures
            log_moved_to_start(*old(self), *final(self)),
    {
        self.tail_follow = false;
        self.scroll = 0;
    }

    pub fn scroll_to_end(&mut self)
        ensures
            log_moved_to_end(*old(self), *final(self)),
    {
        self.tail_follow = true;
        self.scroll = self.max_scroll();
    }
}

/// The view never scrolls past the last viewport, and a log that follows its tail
/// shows exactly the last viewport.
pub proof fn lemma_render_offset_is_clamped(log: DeploymentLog)
    ensures
        0 <= render_offset(log) <= max_scroll(log),
        log.tail_follow ==> render_offset(log) == max_scroll(log),
{
}

/// An action waiting to be confirmed or dispatched.
#[derive(Clone, Debug, PartialEq, Eq)]
pub enum PendingAction {
    SystemCreate { name: String, description: Option<String> },
    ImportApplication { repository: String, system_name: Option<String>, manifest_path: Option<String> },
    Start { application_name: String },
    Stop { application_name: String },
    Reconcile { application_name: String },
    SetVisibility { application_name: String, visibility: Visibility },
    DeployBranch { application_name: String, branch: String },
    DeployImage { application_name: String, image_reference: String },
    Rollback { application_name: String },
}

/// The control command an action issues: the same command the CLI would send.
pub open spec fn action_command(action: PendingAction) -> Command {
    match action {
        PendingAction::SystemCreate { name, description } => Command::SystemCreate { name, description },
        PendingAction::ImportApplication { repository, system_name, manifest_path } =>
            Command::ImportApplication { repository, system_name, manifest_path },
        PendingAction::Start { application_name } => Command::ApplicationStart { application_name },
        PendingAction::Stop { application_name } => Command::ApplicationStop { application_name },
        PendingAction::Reconcile { application_name } => Command::Reconcile { application_name },
        PendingAction::SetVisibility { application_name, visibility } => Command::VisibilitySet {
            application_name,
            visibility,
        },
        PendingAction::DeployBranch { application_name, branch } => Command::DeployBranch {
            application_name,
            branch,
        },
        PendingAction::DeployImage { application_name, image_reference } => Command::DeployImage {
            application_name,
            image_reference,
        },
        PendingAction::Rollback { application_name } => Command::Rollback { application_name },
    }
}

/// The application an action is scoped to; system and import actions have none.
pub open spec fn action_application(action: PendingAction) -> Option<Seq<char>> {
    match action {
        PendingAction::SystemCreate { .. } | PendingAction::ImportApplication { .. } => None,
        PendingAction::Start { application_name } | PendingAction::Stop { application_name }
        | PendingAction::Reconcile { application_name } | PendingAction::SetVisibility {
            application_name,
            ..
        } | PendingAction::DeployBranch { application_name, .. } | PendingAction::DeployImage {
            application_name,
            ..
        } | PendingAction::Rollback { application_name } => Some(application_name@),
    }
}

pub open spec fn confirmation(action: PendingAction) -> Seq<char> {
    match action {
        PendingAction::SystemCreate { name, .. } => "Create system "@ + name@ + "?"@,
        PendingAction::ImportApplication { repository, .. } => "Import application from "@
            + repository@ + "?"@,
        PendingAction::Start { application_name } => "Start "@ + application_name@
            + "? This changes the desired runtime intent and may control the runtime."@,
        PendingAction::Stop { application_name } => "Stop "@ + application_name@
            + "? This changes the desired runtime intent and may control the runtime."@,
        PendingAction::Reconcile { application_name } => "Reconcile "@ + application_name@
            + "? This may repair persisted runtime or route drift."@,
        PendingAction::SetVisibility { application_name, visibility } => "Set "@ + application_name@
            + " visibility to "@ + visibility_text(visibility)
            + "? This may change Caddy exposure."@,
        PendingAction::DeployBranch { application_name, branch } => "Deploy "@ + application_name@
            + " from branch "@ + branch@
            + "? This resolves and deploys its current artifact."@,
        PendingAction::DeployImage { application_name, image_reference } => "Deploy "@
            + application_name@ + " from image "@ + image_reference@
            + "? This deploys the digest-pinned artifact."@,
        PendingAction::Rollback { application_name } => "Roll back "@ + application_name@
            + " to its previous successful release? This deploys a new rollback deployment."@,
    }
}

fn text_of(parts: &str, value: &str, tail: &str) -> (r: String)
    ensures
        r@ == parts@ + value@ + tail@,
{
    let mut out = parts.to_owned();
    push_str(&mut out, value);
    push_str(&mut out, tail);
    out
}

impl PendingAction {
    pub fn application_name(&self) -> (r: Option<&str>)
        ensures
            match (r, action_application(*self)) {
                (Some(name), Some(expected)) => name@ == expected,
                (None, None) => true,
                _ => false,
            },
    {
        match self {
            PendingAction::SystemCreate { .. } | PendingAction::ImportApplication { .. } => None,
            PendingAction::Start { application_name } | PendingAction::Stop { application_name }
            | PendingAction::Reconcile { application_name } | PendingAction::SetVisibility {
                application_name,
                ..
            } | PendingAction::DeployBranch { application_name, .. } | PendingAction::DeployImage {
                application_name,
                ..
            } | PendingAction::Rollback { application_name } => Some(application_name.as_str()),
        }
    }

    /// The command this action issues.
    pub fn command(&self) -> (r: Command)
        ensures
            r == action_command(*self),
    {
        match self {
            PendingAction::SystemCreate { name, description } => Command::SystemCreate {
                name: name.clone(),
                description: match description {
                    Some(d) => Some(d.clone()),
                    None => None,
                },
            },
            PendingAction::ImportApplication { repository, system_name, manifest_path } => {
                Command::ImportApplication {
                    repository: repository.clone(),
                    system_name: match system_name {
                        Some(s) => Some(s.clone()),
                        None => None,
                    },
                    manifest_path: match manifest_path {
                        Some(m) => Some(m.clone()),
                        None => None,
                    },
                }
            },
            PendingAction::Start { application_name } => Command::ApplicationStart {
                application_name: application_name.clone(),
            },
            PendingAction::Stop { application_name } => Command::ApplicationStop {
                application_name: application_name.clone(),
            },
            PendingAction::Reconcile { application_name } => Command::Reconcile {
                application_name: application_name.clone(),
            },
            PendingAction::SetVisibility { application_name, visibility } => Command::VisibilitySet {
                application_name: application_name.clone(),
                visibility: *visibility,
            },
            PendingAction::DeployBranch { application_name, branch } => Command::DeployBranch {
                application_name: application_name.clone(),
                branch: branch.clone(),
            },
            PendingAction::DeployImage { application_name, image_reference } => Command::DeployImage {
                application_name: application_name.clone(),
                image_reference: image_reference.clone(),
            },
            PendingAction::Rollback { application_name } => Command::Rollback {
                application_name: application_name.clone(),
            },
        }
    }

    pub fn targets_visibility(&self, visibility: Visibility) -> (r: bool)
        ensures
            r == (*self matches PendingAction::SetVisibility { visibility: target, .. } && target
                == visibility),
    {
        match self {
            PendingAction::SetVisibility { visibility: target, .. } => match (target, visibility) {
                (Visibility::Public, Visibility::Public) => true,
                (Visibility::Internal, Visibility::Internal) => true,
                _ => false,
            },
            _ => false,
        }
    }

    /// The question shown before a key-triggered action is dispatched.
    pub fn confirmation_text(&self) -> (r: String)
        ensures
            r@ == confirmation(*self),
    {
        match self {
            PendingAction::SystemCreate { name, .. } => text_of("Create system ", name.as_str(), "?"),
            PendingAction::ImportApplication { repository, .. } => text_of(
                "Import application from ",
                repository.as_str(),
                "?",
            ),
            PendingAction::Start { application_name } => text_of(
                "Start ",
                application_name.as_str(),
                "? This changes the desired runtime intent and may control the runtime.",
            ),
            PendingAction::Stop { application_name } => text_of(
                "Stop ",
                application_name.as_str(),
                "? This changes the desired runtime intent and may control the runtime.",
            ),
            PendingAction::Reconcile { application_name } => text_of(
                "Reconcile ",
                application_name.as_str(),
                "? This may repair persisted runtime or route drift.",
            ),
            PendingAction::SetVisibility { application_name, visibility } => {
                let mut out = text_of("Set ", application_name.as_str(), " visibility to ");
                push_str(&mut out, visibility_label(*visibility));
                push_str(&mut out, "? This may change Caddy exposure.");
                out
            },
            PendingAction::DeployBranch { application_name, branch } => {
                let mut out = text_of("Deploy ", application_name.as_str(), " from branch ");
                push_str(&mut out, branch.as_str());
                push_str(&mut out, "? This resolves and deploys its current artifact.");
                out
            },
            PendingAction::DeployImage { application_name, image_reference } => {
                let mut out = text_of("Deploy ", application_name.as_str(), " from image ");
                push_str(&mut out, image_reference.as_str());
                push_str(&mut out, "? This deploys the digest-pinned artifact.");
                out
            },
            PendingAction::Rollback { application_name } => text_of(
                "Roll back ",
                application_name.as_str(),
                " to its previous successful release? This deploys a new rollback deployment.",
            ),
        }
    }

    pub fn is_deployment(&self) -> (r: bool)
        ensures
            r == (*self is DeployBranch || *self is DeployImage || *self is Rollback),
    {
        matches!(
            self,
            PendingAction::DeployBranch { .. } | PendingAction::DeployImage { .. }
                | PendingAction::Rollback { .. }
        )
    }
}

/// Deployment actions issue exactly the deployment commands, so only they run with
/// deployment progress.
pub proof fn lemma_deployment_actions_issue_deployment_commands(action: PendingAction)
    ensures
        (action is DeployBranch || action is DeployImage || action is Rollback) <==> (action_command(
            action,
        ) is DeployBranch || action_command(action) is DeployImage || action_command(
            action,
        ) is Rollback),
{
}

/// Which input the deploy form edits.
#[derive(Clone, Copy, Debug, PartialEq, Eq)]
pub enum DeploySource {
    Branch,
    Image,
}

/// The deploy form: one text input per source, the selected source, and the last
/// validation error.
#[derive(Clone, Debug)]
pub struct DeployForm {
    pub application_name: String,
    pub branch: String,
    pub image: String,
    pub source: DeploySource,
    pub error: Option<String>,
}

pub open spec fn deploy_form_value(form: DeployForm) -> Seq<char> {
    match form.source {
        DeploySource::Branch => form.branch@,
        DeploySource::Image => form.image@,
    }
}

/// A deploy form as opened: both inputs empty, the branch selected, no error.
pub open spec fn fresh_deploy_form(form: DeployForm, application_name: String) -> bool {
    &&& form.application_name == application_name
    &&& form.branch@.len() == 0
    &&& form.image@.len() == 0
    &&& form.source == DeploySource::Branch
    &&& form.error is None
}

/// `g` is `f` with the other source selected.
pub open spec fn deploy_form_toggled(f: DeployForm, g: DeployForm) -> bool {
    &&& g.source == (match f.source {
        DeploySource::Branch => DeploySource::Image,
        DeploySource::Image => DeploySource::Branch,
    })
    &&& g.error is None
    &&& g.branch == f.branch
    &&& g.image == f.image
    &&& g.application_name == f.application_name
}

/// `g` is `f` with the selected input set to `value` and the error cleared.
pub open spec fn deploy_form_edited(f: DeployForm, g: DeployForm, value: Seq<char>) -> bool {
    &&& g.error is None
    &&& g.source == f.source
    &&& f.source == DeploySource::Branch ==> g.branch@ == value && g.image == f.image
    &&& f.source == DeploySource::Image ==> g.image@ == value && g.branch == f.branch
    &&& g.application_name == f.application_name
}

/// The deployment a form with a nonempty selected input requests.
pub open spec fn deploy_action(f: DeployForm) -> PendingAction {
    match f.source {
        DeploySource::Branch => PendingAction::DeployBranch {
            application_name: f.application_name,
            branch: f.branch,
        },
        DeploySource::Image => PendingAction::DeployImage {
            application_name: f.application_name,
            image_reference: f.image,
        },
    }
}

/// A text with its last character removed, if it has one.
pub open spec fn without_last(text: Seq<char>) -> Seq<char> {
    if text.len() > 0 {
        text.drop_last()
    } else {
        text
    }
}

/// What submitting `f` gives: the requested deployment, or `None` with `g` carrying
/// the error for an empty input.
pub open spec fn deploy_form_submitted(f: DeployForm, r: Option<PendingAction>, g: DeployForm) -> bool {
    &&& deploy_form_value(f).len() == 0 ==> r is None && (g.error matches Some(e) && e@ == (
    match f.source {
        DeploySource::Branch => "Enter a branch or tag to deploy."@,
        DeploySource::Image => "Enter a digest-pinned image reference."@,
    }))
    &&& deploy_form_value(f).len() > 0 ==> g.error == f.error && r == Some(deploy_action(f))
    &&& g.branch == f.branch
    &&& g.image == f.image
    &&& g.source == f.source
    &&& g.application_name == f.application_name
}

impl DeployForm {
    pub fn new(application_name: String) -> (r: Self)
        ensures
            fresh_deploy_form(r, application_name),
    {
        DeployForm {
            application_name,
            branch: String::new(),
            image: String::new(),
            source: DeploySource::Branch,
            error: None,
        }
    }

    pub fn toggle_source(&mut self)
        ensures
            deploy_form_toggled(*old(self), *final(self)),
    {
        self.error = None;
        self.source = match self.source {
            DeploySource::Branch => DeploySource::Image,
            DeploySource::Image => DeploySource::Branch,
        };
    }

    /// Types one character into the selected input.
    pub fn push(&mut self, character: char)
        ensures
            deploy_form_edited(*old(self), *final(self), deploy_form_value(*old(self)).push(character)),
    {
        self.error = None;
        match self.source {
            DeploySource::Branch => push_char(&mut self.branch, character),
            DeploySource::Image => push_char(&mut self.image, character),
        }
    }

    /// Deletes the last character of the selected input, if any.
    pub fn backspace(&mut self)
        ensures
            deploy_form_edited(*old(self), *final(self), without_last(deploy_form_value(*old(self)))),
    {
        self.error = None;
        match self.source {
            DeploySource::Branch => {
                pop_char(&mut self.branch);
            },
            DeploySource::Image => {
                pop_char(&mut self.image);
            },
        }
    }

    pub fn value(&self) -> (r: &str)
        ensures
            r@ == deploy_form_value(*self),
    {
        match self.source {
            DeploySource::Branch => self.branch.as_str(),
            DeploySource::Image => self.image.as_str(),
        }
    }

    /// The deployment the form requests, or `None` with an error when the selected
    /// input is empty.
    pub fn submit(&mut self) -> (r: Option<PendingAction>)
        ensures
            deploy_form_submitted(*old(self), r, *final(self)),
    {
        match self.source {
            DeploySource::Branch => {
                if self.branch.as_str().is_empty() {
                    self.error = Some("Enter a branch or tag to deploy.".to_owned());
                    None
                } else {
                    Some(
                        PendingAction::DeployBranch {
                            application_name: self.application_name.clone(),
                            branch: self.branch.clone(),
                        },
                    )
                }
            },
            DeploySource::Image => {
                if self.image.as_str().is_empty() {
                    self.error = Some("Enter a digest-pinned image reference.".to_owned());
                    None
                } else {
                    Some(
                        PendingAction::DeployImage {
                            application_name: self.application_name.clone(),
                            image_reference: self.image.clone(),
                        },
                    )
                }
            },
        }
    }
}

/// One editable text input of a multi-field form.
#[derive(Clone, Debug)]
pub struct FormField {
    pub label: &'static str,
    pub value: String,
}

/// What a multi-field form creates.
#[derive(Clone, Debug)]
pub enum FormKind {
    SystemCreate,
    ImportIntoSystem { system_name: String },
    ImportApplication,
}

/// A multi-field text form. Field order is the submit contract: `submit` reads
/// values by position.
#[derive(Clone, Debug)]
pub struct Form {
    pub title: &'static str,
    pub context: Option<String>,
    pub kind: FormKind,
    pub fields: Vec<FormField>,
    pub focused: usize,
    pub error: Option<String>,
}

/// The number of fields each kind of form has.
pub open spec fn field_count(kind: FormKind) -> int {
    match kind {
        FormKind::SystemCreate => 2,
        FormKind::ImportIntoSystem { .. } => 2,
        FormKind::ImportApplication => 3,
    }
}

/// A form whose fields match its kind and whose focus is on one of them.
pub open spec fn well_formed_form(form: Form) -> bool {
    &&& form.fields@.len() == field_count(form.kind)
    &&& form.focused < form.fields@.len()
}

pub open spec fn field_value(form: Form, index: int) -> Seq<char> {
    form.fields@[index].value@
}

pub open spec fn remote_repository_hint() -> Seq<char> {
    "Enter a remote Git repository (a transport URL or git@host:path)."@
}

/// An optional field: empty means absent; otherwise it must satisfy `valid`.
pub open spec fn optional_outcome(value: Seq<char>, valid: bool, error: Seq<char>) -> Result<
    Option<Seq<char>>,
    Seq<char>,
> {
    if value.len() == 0 {
        Ok(None)
    } else if valid {
        Ok(Some(value))
    } else {
        Err(error)
    }
}

/// An opened form: well formed, every field empty, focus on the first, no error.
pub open spec fn fresh_form(form: Form) -> bool {
    &&& well_formed_form(form)
    &&& forall|i: int| 0 <= i < form.fields@.len() ==> (#[trigger] form.fields@[i]).value@.len() == 0
    &&& form.focused == 0
    &&& form.error is None
}

/// The opened system creation form.
pub open spec fn system_create_form(form: Form) -> bool {
    &&& fresh_form(form)
    &&& form.kind is SystemCreate
    &&& form.title@ == "Create system"@
    &&& form.context is None
    &&& form.fields@[0].label@ == "Name"@
    &&& form.fields@[1].label@ == "Description (optional)"@
}

/// The opened form adding an application to `system_name`.
pub open spec fn import_into_system_form(form: Form, system_name: String) -> bool {
    &&& fresh_form(form)
    &&& form.kind == (FormKind::ImportIntoSystem { system_name })
    &&& form.title@ == "Add application to system"@
    &&& form.context matches Some(c) && c@ == "System: "@ + system_name@
    &&& form.fields@[0].label@ == "Repository"@
    &&& form.fields@[1].label@ == "Manifest path (optional)"@
}

/// The opened application import form.
pub open spec fn import_application_form(form: Form) -> bool {
    &&& fresh_form(form)
    &&& form.kind is ImportApplication
    &&& form.title@ == "Import application"@
    &&& form.context is None
    &&& form.fields@[0].label@ == "Repository"@
    &&& form.fields@[1].label@ == "System (optional)"@
    &&& form.fields@[2].label@ == "Manifest path (optional)"@
}

/// `g` is `f` with its focused field set to `value` and the error cleared.
pub open spec fn form_edited(f: Form, g: Form, value: Seq<char>) -> bool {
    &&& well_formed_form(g)
    &&& g.error is None
    &&& g.focused == f.focused
    &&& g.kind == f.kind
    &&& g.title == f.title
    &&& g.context == f.context
    &&& g.fields@.len() == f.fields@.len()
    &&& field_value(g, f.focused as int) == value
    &&& g.fields@[f.focused as int].label == f.fields@[f.focused as int].label
    &&& forall|i: int|
        0 <= i < f.fields@.len() && i != f.focused ==> #[trigger] g.fields@[i] == f.fields@[i]
}

/// `g` is `f` with the focus moved `steps` fields forward, wrapping around.
pub open spec fn form_focus_moved(f: Form, g: Form, steps: int) -> bool {
    &&& well_formed_form(g)
    &&& g.focused == (f.focused + steps) % (f.fields@.len() as int)
    &&& g.fields == f.fields
    &&& g.kind == f.kind
    &&& g.title == f.title
    &&& g.context == f.context
    &&& g.error == f.error
}

fn empty_field(label: &'static str) -> (r: FormField)
    ensures
        r.label == label,
        r.value@.len() == 0,
{
    FormField { label, value: String::new() }
}

impl Form {
    pub fn system_create() -> (r: Self)
        ensures
            system_create_form(r),
    {
        let mut fields: Vec<FormField> = Vec::new();
        fields.push(empty_field("Name"));
        fields.push(empty_field("Description (optional)"));
        Form {
            title: "Create system",
            context: None,
            kind: FormKind::SystemCreate,
            fields,
            focused: 0,
            error: None,
        }
    }

    pub fn import_into_system(system_name: String) -> (r: Self)
        ensures
            import_into_system_form(r, system_name),
    {
        let mut context = "System: ".to_owned();
        push_str(&mut context, system_name.as_str());
        let mut fields: Vec<FormField> = Vec::new();
        fields.push(empty_field("Repository"));
        fields.push(empty_field("Manifest path (optional)"));
        Form {
            title: "Add application to system",
            context: Some(context),
            kind: FormKind::ImportIntoSystem { system_name },
            fields,
            focused: 0,
            error: None,
        }
    }

    pub fn import_application() -> (r: Self)
        ensures
            import_application_form(r),
    {
        let mut fields: Vec<FormField> = Vec::new();
        fields.push(empty_field("Repository"));
        fields.push(empty_field("System (optional)"));
        fields.push(empty_field("Manifest path (optional)"));
        Form {
            title: "Import application",
            context: None,
            kind: FormKind::ImportApplication,
            fields,
            focused: 0,
            error: None,
        }
    }

    /// Types one character into the focused field.
    pub fn push(&mut self, character: char)
        requires
            well_formed_form(*old(self)),
        ensures
            form_edited(
                *old(self),
                *final(self),
                field_value(*old(self), old(self).focused as int).push(character),
            ),
    {
        self.error = None;
        let focused = self.focused;
        push_char(&mut self.fields[focused].value, character);
    }

    /// Deletes the last character of the focused field, if any.
    pub fn backspace(&mut self)
        requires
            well_formed_form(*old(self)),
        ensures
            form_edited(
                *old(self),
                *final(self),
                without_last(field_value(*old(self), old(self).focused as int)),
            ),
    {
        self.error = None;
        let focused = self.focused;
        pop_char(&mut self.fields[focused].value);
    }

    /// Focus moves forward, wrapping from the last field to the first.
    pub fn focus_next(&mut self)
        requires
            well_formed_form(*old(self)),
        ensures
            form_focus_moved(*old(self), *final(self), 1),
    {
        self.focused = (self.focused + 1) % self.fields.len();
    }

    /// Focus moves backward, wrapping from the first field to the last.
    pub fn focus_previous(&mut self)
        requires
            well_formed_form(*old(self)),
        ensures
            form_focus_moved(*old(self), *final(self), old(self).fields@.len() - 1),
    {
        self.focused = (self.focused + self.fields.len() - 1) % self.fields.len();
    }

    pub fn field(&self, index: usize) -> (r: &str)
        requires
            index < self.fields@.len(),
        ensures
            r@ == field_value(*self, index as int),
    {
        self.fields[index].value.as_str()
    }

    /// An empty field is absent.
    pub fn optional_field(&self, index: usize) -> (r: Option<String>)
        requires
            index < self.fields@.len(),
        ensures
            field_value(*self, index as int).len() == 0 ==> r is None,
            field_value(*self, index as int).len() > 0 ==> (r matches Some(v) && v@ == field_value(
                *self,
                index as int,
            )),
    {
        let value = self.field(index);
        if value.is_empty() {
            None
        } else {
            Some(value.to_owned())
        }
    }

    /// The field as a remote Git repository, or `None` with a hint as the error.
    pub fn require_remote_repository(&mut self, index: usize) -> (r: Option<String>)
        requires
            index < old(self).fields@.len(),
        ensures
            remote_git_location(field_value(*old(self), index as int)) ==> (r matches Some(v) && v@
                == field_value(*old(self), index as int) && final(self).error == old(self).error),
            !remote_git_location(field_value(*old(self), index as int)) ==> r is None && (final(self).error matches Some(e) && e@ == remote_repository_hint()),
            final(self).fields == old(self).fields,
            final(self).focused == old(self).focused,
            final(self).kind == old(self).kind,
            final(self).title == old(self).title,
            final(self).context == old(self).context,
    {
        let repository = self.field(index).to_owned();
        if is_remote_git_location(repository.as_str()) {
            Some(repository)
        } else {
            self.error = Some(
                "Enter a remote Git repository (a transport URL or git@host:path).".to_owned(),
            );
            None
        }
    }

    /// An optional relative manifest path: `Some(None)` when empty, `None` with the
    /// validation message as the error when invalid.
    pub fn optional_manifest_path(&mut self, index: usize) -> (r: Option<Option<String>>)
        requires
            index < old(self).fields@.len(),
        ensures
            match optional_outcome(
                field_value(*old(self), index as int),
                relative_manifest_path(field_value(*old(self), index as int)),
                "invalid relative manifest path `"@ + field_value(*old(self), index as int) + "`"@,
            ) {
                Ok(None) => r == Some(None::<String>) && final(self).error == old(self).error,
                Ok(Some(v)) => (r matches Some(Some(x)) && x@ == v && final(self).error == old(self).error),
                Err(e) => r is None && (final(self).error matches Some(x) && x@ == e),
            },
            final(self).fields == old(self).fields,
            final(self).focused == old(self).focused,
            final(self).kind == old(self).kind,
            final(self).title == old(self).title,
            final(self).context == old(self).context,
    {
        let value = self.field(index).to_owned();
        if value.as_str().is_empty() {
            return Some(None);
        }
        match RelativeManifestPath::new(value.as_str()) {
            Ok(_) => Some(Some(value)),
            Err(source) => {
                self.error = Some(source.message());
                None
            },
        }
    }

    /// An optional system name: `Some(None)` when empty, `None` with the validation
    /// message as the error when invalid.
    pub fn optional_system_name(&mut self, index: usize) -> (r: Option<Option<String>>)
        requires
            index < old(self).fields@.len(),
        ensures
            match optional_outcome(
                field_value(*old(self), index as int),
                valid_catalog_name(field_value(*old(self), index as int)),
                "invalid system name `"@ + field_value(*old(self), index as int) + "`"@,
            ) {
                Ok(None) => r == Some(None::<String>) && final(self).error == old(self).error,
                Ok(Some(v)) => (r matches Some(Some(x)) && x@ == v && final(self).error == old(self).error),
                Err(e) => r is None && (final(self).error matches Some(x) && x@ == e),
            },
            final(self).fields == old(self).fields,
            final(self).focused == old(self).focused,
            final(self).kind == old(self).kind,
            final(self).title == old(self).title,
            final(self).context == old(self).context,
    {
        let value = self.field(index).to_owned();
        if value.as_str().is_empty() {
            return Some(None);
        }
        match SystemName::new(value.as_str()) {
            Ok(_) => Some(Some(value)),
            Err(source) => {
                self.error = Some(source.message());
                None
            },
        }
    }
}

pub open spec fn class_label(class: CliErrorClass) -> Seq<char> {
    match class {
        CliErrorClass::Failure => "Failure"@,
        CliErrorClass::Usage => "Usage"@,
        CliErrorClass::NotFound => "Not found"@,
        CliErrorClass::Conflict => "Conflict"@,
        CliErrorClass::External => "External"@,
    }
}

pub fn error_class_label(class: CliErrorClass) -> (r: &'static str)
    ensures
        r@ == class_label(class),
{
    match class {
        CliErrorClass::Failure => "Failure",
        CliErrorClass::Usage => "Usage",
        CliErrorClass::NotFound => "Not found",
        CliErrorClass::Conflict => "Conflict",
        CliErrorClass::External => "External",
    }
}

/// A failed command as the interface shows it: its class and message.
#[derive(Clone, Debug)]
pub struct WorkerError {
    pub class: CliErrorClass,
    pub message: String,
}

pub open spec fn worker_error_text(error: WorkerError) -> Seq<char> {
    class_label(error.class) + ": "@ + error.message@
}

impl WorkerError {
    /// Keeps the failure's class and message.
    pub fn from_cli_error(error: &CliError) -> (r: Self)
        ensures
            r.class == cli_error_class(*error),
            r.message@ == cli_error_message(*error),
    {
        WorkerError { class: error.class(), message: error.message() }
    }

    pub fn display(&self) -> (r: String)
        ensures
            r@ == worker_error_text(*self),
    {
        let mut out = error_class_label(self.class).to_owned();
        push_str(&mut out, ": ");
        push_str(&mut out, self.message.as_str());
        out
    }
}

/// The error a form submission stops at, checked in field order, or `None` when
/// every field is acceptable.
pub open spec fn submission_error(form: Form) -> Option<Seq<char>> {
    let v0 = field_value(form, 0);
    let v1 = field_value(form, 1);
    match form.kind {
        FormKind::SystemCreate => if !valid_catalog_name(v0) {
            Some("invalid system name `"@ + v0 + "`"@)
        } else {
            None
        },
        FormKind::ImportIntoSystem { .. } => if !remote_git_location(v0) {
            Some(remote_repository_hint())
        } else if v1.len() > 0 && !relative_manifest_path(v1) {
            Some("invalid relative manifest path `"@ + v1 + "`"@)
        } else {
            None
        },
        FormKind::ImportApplication => {
            let v2 = field_value(form, 2);
            if !remote_git_location(v0) {
                Some(remote_repository_hint())
            } else if v1.len() > 0 && !valid_catalog_name(v1) {
                Some("invalid system name `"@ + v1 + "`"@)
            } else if v2.len() > 0 && !relative_manifest_path(v2) {
                Some("invalid relative manifest path `"@ + v2 + "`"@)
            } else {
                None
            }
        },
    }
}

/// An optional value holds exactly the field's text, absent when the field is empty.
pub open spec fn optional_matches(value: Option<String>, field: Seq<char>) -> bool {
    if field.len() == 0 {
        value is None
    } else {
        value matches Some(v) && v@ == field
    }
}

/// The action an acceptable form submits.
pub open spec fn submitted(form: Form, action: PendingAction) -> bool {
    let v0 = field_value(form, 0);
    let v1 = field_value(form, 1);
    match form.kind {
        FormKind::SystemCreate => action matches PendingAction::SystemCreate { name, description }
            && name@ == v0 && optional_matches(description, v1),
        FormKind::ImportIntoSystem { system_name } => action matches PendingAction::ImportApplication {
            repository,
            system_name: chosen,
            manifest_path,
        } && repository@ == v0 && chosen == Some(system_name) && optional_matches(manifest_path, v1),
        FormKind::ImportApplication => action matches PendingAction::ImportApplication {
            repository,
            system_name,
            manifest_path,
        } && repository@ == v0 && optional_matches(system_name, v1) && optional_matches(
            manifest_path,
            field_value(form, 2),
        ),
    }
}

/// What submitting `f` gives: the action it requests, or `None` with the first
/// failing field's error in `g`; the fields and focus stay as they were.
pub open spec fn form_submitted(f: Form, r: Option<PendingAction>, g: Form) -> bool {
    &&& well_formed_form(g)
    &&& g.fields == f.fields
    &&& g.focused == f.focused
    &&& g.kind == f.kind
    &&& g.title == f.title
    &&& g.context == f.context
    &&& match submission_error(f) {
        Some(e) => r is None && (g.error matches Some(x) && x@ == e),
        None => g.error is None && (r matches Some(action) && submitted(f, action)),
    }
}

impl Form {
    /// Validates locally with the same rules the control layer enforces, so invalid
    /// input never reaches the worker; the first failing field sets the error.
    pub fn submit(&mut self) -> (r: Option<PendingAction>)
        requires
            well_formed_form(*old(self)),
        ensures
            form_submitted(*old(self), r, *final(self)),
    {
        self.error = None;
        let which: u8 = match &self.kind {
            FormKind::SystemCreate => 0,
            FormKind::ImportIntoSystem { .. } => 1,
            FormKind::ImportApplication => 2,
        };
        if which == 0 {
            let name = self.field(0).to_owned();
            if let Err(source) = SystemName::new(name.as_str()) {
                self.error = Some(source.message());
                return None;
            }
            let description = self.optional_field(1);
            return Some(PendingAction::SystemCreate { name, description });
        }
        let repository = match self.require_remote_repository(0) {
            Some(repository) => repository,
            None => {
                return None;
            },
        };
        if which == 1 {
            let manifest_path = match self.optional_manifest_path(1) {
                Some(path) => path,
                None => {
                    return None;
                },
            };
            let chosen = match &self.kind {
                FormKind::ImportIntoSystem { system_name } => system_name.clone(),
                _ => String::new(),
            };
            return Some(
                PendingAction::ImportApplication {
                    repository,
                    system_name: Some(chosen),
                    manifest_path,
                },
            );
        }
        let system_name = match self.optional_system_name(1) {
            Some(name) => name,
            None => {
                return None;
            },
        };
        let manifest_path = match self.optional_manifest_path(2) {
            Some(path) => path,
            None => {
                return None;
            },
        };
        Some(PendingAction::ImportApplication { repository, system_name, manifest_path })
    }
}

/// A unit of worker work: a query behind a view, or a confirmed action.
#[derive(Clone, Debug, PartialEq, Eq)]
pub enum Request {
    Systems,
    SystemShow { system_name: String },
    Catalog,
    Deployments { application_name: String },
    Status { application_name: String },
    Action(PendingAction),
}

pub open spec fn request_command(request: Request) -> Command {
    match request {
        Request::Systems => Command::SystemList,
        Request::SystemShow { system_name } => Command::SystemShow { name: system_name },
        Request::Catalog => Command::ListApplications,
        Request::Deployments { application_name } => Command::ListDeployments { application_name },
        Request::Status { application_name } => Command::ApplicationStatus { application_name },
        Request::Action(action) => action_command(action),
    }
}

impl Request {
    pub fn command(&self) -> (r: Command)
        ensures
            r == request_command(*self),
    {
        match self {
            Request::Systems => Command::SystemList,
            Request::SystemShow { system_name } => Command::SystemShow { name: system_name.clone() },
            Request::Catalog => Command::ListApplications,
            Request::Deployments { application_name } => Command::ListDeployments {
                application_name: application_name.clone(),
            },
            Request::Status { application_name } => Command::ApplicationStatus {
                application_name: application_name.clone(),
            },
            Request::Action(action) => action.command(),
        }
    }

    pub fn action(&self) -> (r: Option<&PendingAction>)
        ensures
            match *self {
                Request::Action(action) => r == Some(&action),
                _ => r is None,
            },
    {
        match self {
            Request::Action(action) => Some(action),
            _ => None,
        }
    }
}

pub open spec fn deployment_result_text(
    verb: Seq<char>,
    application_name: Seq<char>,
    deployment: DeploymentResult,
) -> Seq<char> {
    verb + " "@ + application_name + ": deployment "@ + deployment.deployment_id@ + " promoted ("@
        + deployment.artifact.reference_view() + ")"@
}

/// The outcome line of a promoted deployment.
pub fn deployment_result_message(
    verb: &str,
    application_name: &ApplicationName,
    deployment: &DeploymentResult,
) -> (r: String)
    ensures
        r@ == deployment_result_text(verb@, application_name@, *deployment),
{
    let mut out = verb.to_owned();
    push_str(&mut out, " ");
    push_str(&mut out, application_name.as_str());
    push_str(&mut out, ": deployment ");
    push_str(&mut out, deployment.deployment_id.as_str());
    push_str(&mut out, " promoted (");
    push_str(&mut out, deployment.artifact.reference());
    push_str(&mut out, ")");
    out
}

pub fn application_entry_name(entry: &ApplicationCatalogEntry) -> (r: &str)
    ensures
        r@ == entry.summary.name@,
{
    entry.summary.name.as_str()
}

pub fn system_name(system: &System) -> (r: &str)
    ensures
        r@ == system.name@,
{
    system.name.as_str()
}

/// Index of the first name equal to `name`.
pub open spec fn position_of(names: Seq<Seq<char>>, name: Seq<char>) -> Option<int>
    decreases names.len(),
{
    if names.len() == 0 {
        None
    } else if names[0] == name {
        Some(0)
    } else {
        match position_of(names.drop_first(), name) {
            Some(i) => Some(i + 1),
            None => None,
        }
    }
}

pub(crate) proof fn lemma_position_in_bounds(names: Seq<Seq<char>>, name: Seq<char>)
    ensures
        position_of(names, name) matches Some(i) ==> 0 <= i < names.len() && names[i] == name,
        position_of(names, name) is None ==> forall|i: int| 0 <= i < names.len() ==> names[i] != name,
    decreases names.len(),
{
    if names.len() > 0 {
        lemma_position_in_bounds(names.drop_first(), name);
        if names[0] != name {
            assert forall|i: int| 0 < i < names.len() implies names[i] == names.drop_first()[i - 1] by {}
        }
    }
}

pub(crate) fn find_position(names: &Vec<String>, name: &str) -> (r: Option<usize>)
    ensures
        match (r, position_of(strings_view_of(names@), name@)) {
            (Some(i), Some(j)) => i == j,
            (None, None) => true,
            _ => false,
        },
{
    let ghost all = strings_view_of(names@);
    let mut i: usize = 0;
    assert(all.subrange(0, all.len() as int) == all);
    while i < names.len()
        invariant
            i <= names@.len() == all.len(),
            all == strings_view_of(names@),
            forall|k: int| 0 <= k < i ==> all[k] != name@,
            position_of(all, name@) == match position_of(all.subrange(i as int, all.len() as int), name@) {
                Some(j) => Some(j + i),
                None => None::<int>,
            },
        decreases names@.len() - i,
    {
        let ghost rest = all.subrange(i as int, all.len() as int);
        assert(rest[0] == all[i as int]);
        if str_eq(names[i].as_str(), name) {
            return Some(i);
        }
        assert(rest.drop_first() == all.subrange(i + 1, all.len() as int));
        i = i + 1;
    }
    None
}

pub open spec fn strings_view_of(v: Seq<String>) -> Seq<Seq<char>> {
    Seq::new(v.len(), |i: int| v[i]@)
}

/// After a refresh, the previous selection when it is still listed, else the first
/// entry, else nothing.
pub open spec fn preserved(names: Seq<Seq<char>>, previous: Option<Seq<char>>) -> Option<Seq<char>> {
    match previous {
        Some(p) if position_of(names, p) is Some => Some(p),
        _ => if names.len() > 0 {
            Some(names[0])
        } else {
            None
        },
    }
}

pub fn preserved_selection(names: &Vec<String>, previous: Option<String>) -> (r: Option<String>)
    ensures
        match (r, preserved(strings_view_of(names@), match previous {
            Some(p) => Some(p@),
            None => None,
        })) {
            (Some(x), Some(y)) => x@ == y,
            (None, None) => true,
            _ => false,
        },
{
    if let Some(previous) = previous {
        if find_position(names, previous.as_str()).is_some() {
            return Some(previous);
        }
    }
    if names.len() > 0 {
        Some(names[0].clone())
    } else {
        None
    }
}

/// One step through a list: down or up from the current entry, stopping at either
/// end; from no (or an unlisted) selection, down selects the first entry and up the
/// last. Any other movement keeps the current selection.
pub open spec fn stepped(names: Seq<Seq<char>>, current: Option<Seq<char>>, movement: int) -> Option<
    Seq<char>,
> {
    let index = match current {
        Some(c) => position_of(names, c),
        None => None,
    };
    if names.len() == 0 {
        None
    } else {
        match index {
            Some(i) => if movement == 1 {
                Some(names[if i + 1 < names.len() { i + 1 } else { names.len() - 1 }])
            } else if movement == -1 {
                Some(names[if i > 0 { i - 1 } else { 0 }])
            } else {
                current
            },
            None => if movement == 1 {
                Some(names[0])
            } else if movement == -1 {
                Some(names[names.len() - 1])
            } else {
                current
            },
        }
    }
}

pub fn next_selection(names: &Vec<String>, current: Option<&str>, movement: isize) -> (r: Option<
    String,
>)
    ensures
        match (r, stepped(strings_view_of(names@), match current {
            Some(c) => Some(c@),
            None => None,
        }, movement as int)) {
            (Some(x), Some(y)) => x@ == y,
            (None, None) => true,
            _ => false,
        },
{
    let current_index = match current {
        Some(c) => find_position(names, c),
        None => None,
    };
    proof {
        if let Some(c) = current {
            lemma_position_in_bounds(strings_view_of(names@), c@);
        }
    }
    let len = names.len();
    if len == 0 {
        return None;
    }
    let next_index = match current_index {
        Some(index) => {
            if movement == 1 {
                if index + 1 < len {
                    index + 1
                } else {
                    len - 1
                }
            } else if movement == -1 {
                if index > 0 {
                    index - 1
                } else {
                    0
                }
            } else {
                return match current {
                    Some(c) => Some(c.to_owned()),
                    None => None,
                };
            }
        },
        None => {
            if movement == 1 {
                0
            } else if movement == -1 {
                len - 1
            } else {
                return match current {
                    Some(c) => Some(c.to_owned()),
                    None => None,
                };
            }
        },
    };
    Some(names[next_index].clone())
}

} // verus!
