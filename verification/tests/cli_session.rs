use pneuma::cli::error::CliErrorClass;
use pneuma::cli::session::{
    ActionOutcome, Focus, KeyCode, KeyEvent, Mode, QueryState, Session, SessionError,
};
use pneuma::cli::tui::{
    deployment_event_line, DeploymentLog, DeploymentLogState, PendingAction, Request, Tab,
    WorkerError,
};
use pneuma::control::outcome::{
    ApplicationCatalogEntry, DeploymentEvent, DeploymentResult, DeploymentStep,
    RuntimeObservation, SystemDetails,
};
use pneuma::control::{Command, CommandResult};
use pneuma::domain::application::{ApplicationName, ApplicationSummary, DesiredRuntimeState};
use pneuma::domain::exposure::Visibility;
use pneuma::domain::identity::{ApplicationId, DeploymentId, RuntimeInstanceId, SystemId};
use pneuma::domain::release::OciArtifact;
use pneuma::domain::runtime::{ContainerId, IpAddress, ObservedRuntimeState, SocketAddress};
use pneuma::domain::system::{System, SystemName};

fn entry(name: &str) -> ApplicationCatalogEntry {
    ApplicationCatalogEntry {
        summary: ApplicationSummary {
            id: ApplicationId::new("11111111111111111111111111111111").unwrap(),
            system_id: Some(SystemId::new("22222222222222222222222222222222").unwrap()),
            name: ApplicationName::new(name).unwrap(),
            repository: Some(format!("https://example.test/{name}.git")),
            default_branch: Some("main".to_owned()),
            desired_runtime_state: DesiredRuntimeState::Running,
            active_deployment_id: None,
            specification_version: 1,
        },
        deployed: false,
    }
}

fn key(code: KeyCode) -> KeyEvent {
    KeyEvent::new(code, false)
}

fn press(session: &mut Session, code: KeyCode) {
    session.handle_key(key(code));
}

fn type_text(session: &mut Session, text: &str) {
    for character in text.chars() {
        press(session, KeyCode::Char(character));
    }
}

fn detail_session() -> Session {
    let mut session = Session::new();
    session.queued.clear();
    session.catalog = QueryState::Ready(vec![entry("atlas")]);
    session.selected_application = Some("atlas".to_owned());
    session.observations_application = Some("atlas".to_owned());
    session.tab = Tab::Applications;
    session.focus = Focus::Details;
    session
}

fn queued_commands(session: &Session) -> Vec<Command> {
    session.queued.iter().map(Request::command).collect()
}

fn first_queued_command(session: &Session) -> Option<Command> {
    session.queued.front().map(Request::command)
}

fn runtime_observation() -> RuntimeObservation {
    RuntimeObservation {
        desired_runtime_state: DesiredRuntimeState::Running,
        observed_runtime_state: ObservedRuntimeState::Running,
        runtime_id: RuntimeInstanceId::new("33333333333333333333333333333333").unwrap(),
        container_id: ContainerId::from_text("abcdef123456"),
        observed_endpoint: Some(SocketAddress { ip: IpAddress::V4(127, 0, 0, 1), port: 30000 }),
    }
}

fn system_fixture(name: &str) -> System {
    System {
        id: SystemId::new("33333333333333333333333333333333").unwrap(),
        name: SystemName::new(name).unwrap(),
        description: None,
    }
}

fn deployment_result() -> DeploymentResult {
    DeploymentResult {
        deployment_id: DeploymentId::new("0f8d3a2c41b64d7e9a0c5b6e1f2d3a4b").unwrap(),
        runtime_id: RuntimeInstanceId::new("11111111111111111111111111111111").unwrap(),
        container_name: "system-atlas".to_owned(),
        artifact: OciArtifact::parse(
            "registry.example/team/service@sha256:aaaaaaaaaaaaaaaaaaaaaaaaaaaaaaaaaaaaaaaaaaaaaaaaaaaaaaaaaaaaaaaa",
        )
        .unwrap(),
        source_revision: None,
    }
}

fn deployment_log(lines: Vec<String>) -> DeploymentLog {
    let mut log = DeploymentLog::new("atlas".to_owned());
    log.lines = lines;
    log
}

#[test]
fn action_outcome_is_shown_only_for_its_application_detail() {
    let mut session = detail_session();
    session.catalog = QueryState::Ready(vec![entry("atlas"), entry("beacon")]);
    session.outcome =
        Some(ActionOutcome { scope: "atlas".to_owned(), message: "Started atlas".to_owned() });

    assert_eq!(session.outcome_for_detail(), Some("Started atlas"));

    press(&mut session, KeyCode::Esc);
    press(&mut session, KeyCode::Down);
    press(&mut session, KeyCode::Enter);

    assert_eq!(session.outcome_for_detail(), None);
}

#[test]
fn confirmation_owns_keys_until_the_operator_cancels_or_confirms() {
    let mut session = detail_session();

    press(&mut session, KeyCode::Char('s'));
    assert!(matches!(
        &session.mode,
        Mode::Confirm(PendingAction::Start { application_name }) if application_name == "atlas"
    ));

    press(&mut session, KeyCode::Char('q'));
    assert!(matches!(&session.mode, Mode::Confirm(_)));
    assert!(!session.quit_after_completion);

    press(&mut session, KeyCode::Char('n'));
    assert!(matches!(session.mode, Mode::Normal));
    assert!(session.queued.is_empty());

    press(&mut session, KeyCode::Char('x'));
    press(&mut session, KeyCode::Enter);
    assert!(matches!(session.mode, Mode::Normal));
    assert_eq!(
        first_queued_command(&session),
        Some(Command::ApplicationStop { application_name: "atlas".to_owned() })
    );
}

#[test]
fn confirmation_enqueues_the_exact_existing_control_command() {
    let mut session = detail_session();

    press(&mut session, KeyCode::Char('p'));
    press(&mut session, KeyCode::Enter);

    assert!(matches!(session.mode, Mode::Normal));
    assert_eq!(
        first_queued_command(&session),
        Some(Command::VisibilitySet {
            application_name: "atlas".to_owned(),
            visibility: Visibility::Public,
        })
    );
}

#[test]
fn confirmed_action_replaces_pending_refreshes_without_leaving_the_detail_view() {
    let mut session = detail_session();
    session.active = Some((41, Request::Status { application_name: "atlas".to_owned() }));
    session.queued.push_back(Request::Catalog);
    session.queued.push_back(Request::Deployments { application_name: "atlas".to_owned() });

    press(&mut session, KeyCode::Char('s'));
    press(&mut session, KeyCode::Enter);

    assert!(matches!(session.focus, Focus::Details));
    assert_eq!(
        queued_commands(&session),
        vec![Command::ApplicationStart { application_name: "atlas".to_owned() }]
    );
}

#[test]
fn confirmed_successor_action_suppresses_the_previous_action_refresh() {
    let mut session = detail_session();
    session.active =
        Some((41, Request::Action(PendingAction::Stop { application_name: "atlas".to_owned() })));

    press(&mut session, KeyCode::Char('s'));
    press(&mut session, KeyCode::Char('y'));
    session.refresh_after_action(&PendingAction::Stop { application_name: "atlas".to_owned() });

    assert_eq!(
        queued_commands(&session),
        vec![Command::ApplicationStart { application_name: "atlas".to_owned() }]
    );
}

#[test]
fn action_failures_keep_their_class_and_schedule_a_refresh() {
    let mut session = detail_session();
    let action = PendingAction::Stop { application_name: "atlas".to_owned() };

    session.apply_error(
        Request::Action(action),
        WorkerError { class: CliErrorClass::Conflict, message: "application is busy".to_owned() }
            .display(),
    );

    assert_eq!(session.error.as_deref(), Some("Conflict: application is busy"));
    assert!(matches!(session.catalog, QueryState::Loading));
    assert!(matches!(session.runtime, QueryState::Loading));
    assert_eq!(
        queued_commands(&session),
        vec![
            Command::ListApplications,
            Command::ApplicationStatus { application_name: "atlas".to_owned() },
        ]
    );
}

#[test]
fn deploy_form_edits_text_and_submits_the_exact_branch_command() {
    let mut session = detail_session();

    press(&mut session, KeyCode::Char('d'));
    assert!(matches!(session.mode, Mode::Deploy(_)));

    type_text(&mut session, "main");
    // The deploy form owns printable text: `q` edits instead of quitting.
    press(&mut session, KeyCode::Char('q'));
    assert!(matches!(session.mode, Mode::Deploy(_)));
    assert!(!session.quit_after_completion);
    press(&mut session, KeyCode::Backspace);

    press(&mut session, KeyCode::Enter);
    assert!(matches!(session.mode, Mode::Normal));
    assert_eq!(
        first_queued_command(&session),
        Some(Command::DeployBranch {
            application_name: "atlas".to_owned(),
            branch: "main".to_owned(),
        })
    );
}

#[test]
fn deploy_form_switches_to_the_image_source_and_submits_the_exact_image_command() {
    let mut session = detail_session();

    press(&mut session, KeyCode::Char('d'));
    press(&mut session, KeyCode::Char('m'));
    press(&mut session, KeyCode::Tab);
    press(&mut session, KeyCode::Backspace);
    let reference = "registry.example/team/service@sha256:aaaaaaaaaaaaaaaaaaaaaaaaaaaaaaaaaaaaaaaaaaaaaaaaaaaaaaaaaaaaaaaa";
    type_text(&mut session, reference);
    press(&mut session, KeyCode::Enter);

    assert!(matches!(session.mode, Mode::Normal));
    assert_eq!(
        first_queued_command(&session),
        Some(Command::DeployImage {
            application_name: "atlas".to_owned(),
            image_reference: reference.to_owned(),
        })
    );
}

#[test]
fn deploy_form_rejects_an_empty_source_without_dispatching() {
    let mut session = detail_session();

    press(&mut session, KeyCode::Char('d'));
    press(&mut session, KeyCode::Enter);

    assert!(matches!(session.mode, Mode::Deploy(_)));
    assert!(session.queued.is_empty());
    let Mode::Deploy(form) = &session.mode else {
        panic!("deploy form must stay open");
    };
    assert_eq!(form.error.as_deref(), Some("Enter a branch or tag to deploy."));

    press(&mut session, KeyCode::Esc);
    assert!(matches!(session.mode, Mode::Normal));
    assert!(session.queued.is_empty());
}

#[test]
fn rollback_requires_confirmation_and_maps_to_the_existing_command() {
    let mut session = detail_session();

    press(&mut session, KeyCode::Char('b'));
    assert!(matches!(
        &session.mode,
        Mode::Confirm(PendingAction::Rollback { application_name }) if application_name == "atlas"
    ));
    press(&mut session, KeyCode::Esc);
    assert!(matches!(session.mode, Mode::Normal));
    assert!(session.queued.is_empty());

    press(&mut session, KeyCode::Char('b'));
    press(&mut session, KeyCode::Char('y'));
    assert!(matches!(session.mode, Mode::Normal));
    assert_eq!(
        first_queued_command(&session),
        Some(Command::Rollback { application_name: "atlas".to_owned() })
    );
}

#[test]
fn deployment_events_render_with_the_shared_progress_vocabulary() {
    assert_eq!(
        deployment_event_line(&DeploymentEvent::DeploymentRequested {
            application_name: ApplicationName::new("atlas").unwrap(),
        }),
        "Deploying atlas..."
    );
    assert_eq!(
        deployment_event_line(&DeploymentEvent::StepStarted { step: DeploymentStep::PullImage }),
        "pull image: started"
    );
}

#[test]
fn deployment_log_is_scoped_to_its_application_detail() {
    let mut session = detail_session();
    session.catalog = QueryState::Ready(vec![entry("atlas"), entry("beacon")]);
    session.active = Some((
        41,
        Request::Action(PendingAction::DeployBranch {
            application_name: "atlas".to_owned(),
            branch: "main".to_owned(),
        }),
    ));
    session.deployment_log = Some(deployment_log(vec![
        "Deploying atlas...".to_owned(),
        "pull image: started".to_owned(),
    ]));

    assert_eq!(session.deployment_log_for_detail().map(|log| log.lines.len()), Some(2));

    // Selecting another application scopes the log panel away, but the log itself
    // is retained for its own application.
    session.selected_application = Some("beacon".to_owned());
    assert!(session.deployment_log_for_detail().is_none());
    assert_eq!(session.deployment_log.as_ref().map(|log| log.lines.len()), Some(2));
}

#[test]
fn deployment_log_survives_a_successful_finish_and_refreshes() {
    let mut session = detail_session();
    session.deployment_log = Some(deployment_log(vec![
        "Deploying atlas...".to_owned(),
        "state changed to Succeeded".to_owned(),
    ]));

    session.finish_deployment_log(
        &Request::Action(PendingAction::DeployBranch {
            application_name: "atlas".to_owned(),
            branch: "main".to_owned(),
        }),
        &Ok(CommandResult::ApplicationDeployed {
            application_name: ApplicationName::new("atlas").unwrap(),
            deployment: deployment_result(),
        }),
    );
    session.refresh_details();

    let log = session.deployment_log.as_ref().expect("a finished deployment log must be retained");
    assert!(matches!(log.state, DeploymentLogState::Completed));
    assert_eq!(log.lines.len(), 2);
    assert!(log.tail_follow);
}

#[test]
fn deployment_failure_before_any_event_is_recorded_in_the_log() {
    let mut session = detail_session();
    session.deployment_log = Some(DeploymentLog::new("atlas".to_owned()));

    session.finish_deployment_log(
        &Request::Action(PendingAction::Rollback { application_name: "atlas".to_owned() }),
        &Err(WorkerError {
            class: CliErrorClass::Conflict,
            message: "already has an operation in progress".to_owned(),
        }),
    );

    let log = session.deployment_log.as_ref().expect("a failed deployment log must be retained");
    assert!(matches!(
        &log.state,
        DeploymentLogState::Failed(error)
            if error == "Conflict: already has an operation in progress"
    ));
    assert!(log.lines.is_empty());
}

#[test]
fn non_deployment_actions_and_new_dispatches_treat_the_log_correctly() {
    let mut session = detail_session();
    session.deployment_log = Some(deployment_log(vec!["Deploying atlas...".to_owned()]));
    // Confirming a deployment only queues it: the previous log stays.
    session.execute_action(PendingAction::DeployBranch {
        application_name: "atlas".to_owned(),
        branch: "feature".to_owned(),
    });
    assert!(session.deployment_log.as_ref().is_some_and(|log| {
        log.lines.first().is_some_and(|line| line == "Deploying atlas...")
    }));
    // The queued deployment replaces the log only when it dispatches.
    session.active = Some((
        42,
        Request::Action(PendingAction::DeployBranch {
            application_name: "atlas".to_owned(),
            branch: "feature".to_owned(),
        }),
    ));
    session.dispatch_deployment_log();
    let log = session.deployment_log.as_ref().expect("a dispatched deployment must open a new log");
    assert_eq!(log.application_name, "atlas");
    assert!(matches!(log.state, DeploymentLogState::Running));
    assert!(log.lines.is_empty());
    // A completed non-deployment action keeps the log untouched.
    session.apply_success(
        Request::Action(PendingAction::Start { application_name: "atlas".to_owned() }),
        CommandResult::ApplicationStarted {
            application_name: ApplicationName::new("atlas").unwrap(),
            observation: runtime_observation(),
        },
    );
    let log =
        session.deployment_log.as_ref().expect("a non-deployment action must not clear the log");
    assert!(matches!(log.state, DeploymentLogState::Running));
}

#[test]
fn focus_descends_to_the_log_only_when_a_log_exists() {
    let mut session = detail_session();

    // Without a log, Enter keeps the focus in the details column.
    press(&mut session, KeyCode::Enter);
    assert!(matches!(session.focus, Focus::Details));

    session.deployment_log = Some(DeploymentLog::new("atlas".to_owned()));
    press(&mut session, KeyCode::Enter);
    assert!(matches!(session.focus, Focus::Log));

    press(&mut session, KeyCode::Esc);
    assert!(matches!(session.focus, Focus::Details));

    press(&mut session, KeyCode::Enter);
    assert!(matches!(session.focus, Focus::Log));
    press(&mut session, KeyCode::Left);
    assert!(matches!(session.focus, Focus::Details));
    press(&mut session, KeyCode::Left);
    assert!(matches!(session.focus, Focus::Listing));
}

fn scrollable_log() -> DeploymentLog {
    let mut log = deployment_log((0..10).map(|row| format!("event row {row}")).collect());
    log.total_rows = 10;
    log.viewport_rows = 4;
    log
}

fn log_focus_session() -> Session {
    let mut session = detail_session();
    session.deployment_log = Some(scrollable_log());
    press(&mut session, KeyCode::Enter);
    session
}

#[test]
fn log_scrolling_clamps_at_both_bounds_and_resumes_tail_following() {
    let mut session = log_focus_session();

    // Scrolling up from the tail anchors one row above the bottom and never goes
    // past the oldest row.
    press(&mut session, KeyCode::Up);
    let log = session.deployment_log_for_detail().expect("log is present");
    assert!(!log.tail_follow);
    assert_eq!(log.scroll, 5);
    for _ in 0..10 {
        press(&mut session, KeyCode::Up);
    }
    let log = session.deployment_log_for_detail().expect("log is present");
    assert_eq!(log.scroll, 0);

    // Scrolling back down clamps at the bottom and resumes tail-following.
    for _ in 0..10 {
        press(&mut session, KeyCode::Down);
    }
    let log = session.deployment_log_for_detail().expect("log is present");
    assert!(log.tail_follow);

    // Selection never changes while scrolling, and scrolling works while a command
    // is active because it never issues one.
    assert_eq!(session.selected_application.as_deref(), Some("atlas"));
    session.active = Some((
        7,
        Request::Action(PendingAction::DeployBranch {
            application_name: "atlas".to_owned(),
            branch: "main".to_owned(),
        }),
    ));
    press(&mut session, KeyCode::Home);
    let log = session.deployment_log_for_detail().expect("log is present");
    assert_eq!(log.scroll, 0);
    assert!(!log.tail_follow);
    press(&mut session, KeyCode::End);
    let log = session.deployment_log_for_detail().expect("log is present");
    assert!(log.tail_follow);
    assert_eq!(log.scroll, log.max_scroll());
}

#[test]
fn log_paging_uses_the_recorded_viewport() {
    let mut session = log_focus_session();

    press(&mut session, KeyCode::PageUp);
    let log = session.deployment_log_for_detail().expect("log is present");
    assert!(!log.tail_follow);
    assert_eq!(log.scroll, 2);

    press(&mut session, KeyCode::PageDown);
    let log = session.deployment_log_for_detail().expect("log is present");
    assert!(log.tail_follow);
}

#[test]
fn incoming_events_never_move_a_detached_log_view() {
    let mut log = scrollable_log();
    log.tail_follow = false;
    log.scroll = 2;

    log.record_event(&DeploymentEvent::StepStarted { step: DeploymentStep::PullImage });
    log.total_rows += 1;

    assert_eq!(log.scroll, 2);
    assert!(!log.tail_follow);
    assert_eq!(log.render_offset(), 2);
}

#[test]
fn deploy_success_renders_the_typed_result_and_refreshes_history() {
    let mut session = detail_session();
    let action = PendingAction::DeployBranch {
        application_name: "atlas".to_owned(),
        branch: "main".to_owned(),
    };

    session.apply_success(
        Request::Action(action.clone()),
        CommandResult::ApplicationDeployed {
            application_name: ApplicationName::new("atlas").unwrap(),
            deployment: deployment_result(),
        },
    );

    let outcome = session.outcome.as_ref().expect("deploy success must set an outcome");
    assert_eq!(outcome.scope, "atlas");
    assert_eq!(
        outcome.message,
        "Deployed atlas: deployment 0f8d3a2c41b64d7e9a0c5b6e1f2d3a4b promoted (registry.example/team/service@sha256:aaaaaaaaaaaaaaaaaaaaaaaaaaaaaaaaaaaaaaaaaaaaaaaaaaaaaaaaaaaaaaaa)"
    );
    assert_eq!(
        queued_commands(&session),
        vec![
            Command::ListApplications,
            Command::ListDeployments { application_name: "atlas".to_owned() },
            Command::ApplicationStatus { application_name: "atlas".to_owned() },
        ]
    );
    assert_eq!(action.application_name(), Some("atlas"));
}

#[test]
fn rollback_success_renders_the_typed_result_and_refreshes_history() {
    let mut session = detail_session();

    session.apply_success(
        Request::Action(PendingAction::Rollback { application_name: "atlas".to_owned() }),
        CommandResult::ApplicationRolledBack {
            application_name: ApplicationName::new("atlas").unwrap(),
            deployment: deployment_result(),
        },
    );

    let outcome = session.outcome.as_ref().expect("rollback success must set an outcome");
    assert_eq!(
        outcome.message,
        "Rolled back atlas: deployment 0f8d3a2c41b64d7e9a0c5b6e1f2d3a4b promoted (registry.example/team/service@sha256:aaaaaaaaaaaaaaaaaaaaaaaaaaaaaaaaaaaaaaaaaaaaaaaaaaaaaaaaaaaaaaaa)"
    );
    assert_eq!(
        queued_commands(&session),
        vec![
            Command::ListApplications,
            Command::ListDeployments { application_name: "atlas".to_owned() },
            Command::ApplicationStatus { application_name: "atlas".to_owned() },
        ]
    );
}

#[test]
fn deploy_failure_keeps_the_class_and_refreshes_history_after_persisted_evidence() {
    let mut session = detail_session();

    session.apply_error(
        Request::Action(PendingAction::DeployBranch {
            application_name: "atlas".to_owned(),
            branch: "main".to_owned(),
        }),
        WorkerError { class: CliErrorClass::External, message: "deployment failed".to_owned() }
            .display(),
    );

    assert_eq!(session.error.as_deref(), Some("External: deployment failed"));
    assert!(matches!(session.deployments, QueryState::Loading));
    assert_eq!(
        queued_commands(&session),
        vec![
            Command::ListApplications,
            Command::ListDeployments { application_name: "atlas".to_owned() },
            Command::ApplicationStatus { application_name: "atlas".to_owned() },
        ]
    );
}

#[test]
fn tab_keys_switch_groups_and_reset_the_focus() {
    let mut session = detail_session();

    press(&mut session, KeyCode::Char('1'));
    assert!(matches!(session.tab, Tab::Systems));
    assert!(matches!(session.focus, Focus::Listing));

    press(&mut session, KeyCode::Char('3'));
    assert!(matches!(session.tab, Tab::Deployments));

    press(&mut session, KeyCode::Tab);
    assert!(matches!(session.tab, Tab::Systems));

    press(&mut session, KeyCode::BackTab);
    press(&mut session, KeyCode::BackTab);
    assert!(matches!(session.tab, Tab::Applications));

    // Tab switching is navigation: it stays disabled while busy.
    session.active = Some((41, Request::Systems));
    press(&mut session, KeyCode::Char('3'));
    assert!(matches!(session.tab, Tab::Applications));
    session.active = None;
}

#[test]
fn left_arrow_returns_from_details_to_the_listing_and_then_switches_tabs() {
    let mut session = detail_session();

    press(&mut session, KeyCode::Left);
    assert!(matches!(session.focus, Focus::Listing));
    assert!(matches!(session.tab, Tab::Applications));
    // The detail target stays selected so returning is cheap.
    assert_eq!(session.observations_application.as_deref(), Some("atlas"));

    press(&mut session, KeyCode::Left);
    assert!(matches!(session.tab, Tab::Systems));

    press(&mut session, KeyCode::Right);
    assert!(matches!(session.tab, Tab::Applications));
}

#[test]
fn system_create_form_submits_the_exact_existing_command() {
    let mut session = Session::new();
    session.queued.clear();
    press(&mut session, KeyCode::Char('1'));
    press(&mut session, KeyCode::Char('n'));
    assert!(matches!(session.mode, Mode::Form(_)));

    type_text(&mut session, "forge");
    press(&mut session, KeyCode::Tab);
    type_text(&mut session, "Team system");
    press(&mut session, KeyCode::Enter);

    assert!(matches!(session.mode, Mode::Normal));
    assert_eq!(
        first_queued_command(&session),
        Some(Command::SystemCreate {
            name: "forge".to_owned(),
            description: Some("Team system".to_owned()),
        })
    );
}

#[test]
fn system_create_form_rejects_an_invalid_name_without_dispatching() {
    let mut session = Session::new();
    session.queued.clear();
    press(&mut session, KeyCode::Char('1'));
    press(&mut session, KeyCode::Char('n'));
    type_text(&mut session, "Invalid Name!");
    press(&mut session, KeyCode::Enter);

    assert!(matches!(session.mode, Mode::Form(_)));
    assert!(session.queued.is_empty());
    let Mode::Form(form) = &session.mode else {
        panic!("system form must stay open");
    };
    assert_eq!(form.error.as_deref(), Some("invalid system name `Invalid Name!`"));
}

#[test]
fn import_into_system_form_binds_the_selected_system() {
    let mut session = Session::new();
    session.queued.clear();
    session.tab = Tab::Systems;
    session.systems = QueryState::Ready(vec![system_fixture("forge")]);
    session.selected_system = Some("forge".to_owned());

    press(&mut session, KeyCode::Char('a'));
    type_text(&mut session, "https://example.test/app.git");
    press(&mut session, KeyCode::Enter);

    assert!(matches!(session.mode, Mode::Normal));
    assert_eq!(
        first_queued_command(&session),
        Some(Command::ImportApplication {
            repository: "https://example.test/app.git".to_owned(),
            system_name: Some("forge".to_owned()),
            manifest_path: None,
        })
    );
}

#[test]
fn import_into_system_form_rejects_a_local_repository() {
    let mut session = Session::new();
    session.queued.clear();
    session.tab = Tab::Systems;
    session.systems = QueryState::Ready(vec![system_fixture("forge")]);
    session.selected_system = Some("forge".to_owned());

    press(&mut session, KeyCode::Char('a'));
    type_text(&mut session, "/srv/checkouts/app");
    press(&mut session, KeyCode::Enter);

    assert!(matches!(session.mode, Mode::Form(_)));
    assert!(session.queued.is_empty());
}

#[test]
fn application_import_form_submits_the_exact_existing_command() {
    let mut session = Session::new();
    session.queued.clear();
    press(&mut session, KeyCode::Char('n'));

    type_text(&mut session, "https://example.test/app.git");
    press(&mut session, KeyCode::Tab);
    type_text(&mut session, "forge");
    press(&mut session, KeyCode::Tab);
    type_text(&mut session, "deploy/pneuma.toml");
    press(&mut session, KeyCode::Enter);

    assert!(matches!(session.mode, Mode::Normal));
    assert_eq!(
        first_queued_command(&session),
        Some(Command::ImportApplication {
            repository: "https://example.test/app.git".to_owned(),
            system_name: Some("forge".to_owned()),
            manifest_path: Some("deploy/pneuma.toml".to_owned()),
        })
    );
}

#[test]
fn system_create_success_selects_the_system_and_refreshes_the_systems() {
    let mut session = Session::new();
    session.queued.clear();

    session.apply_success(
        Request::Action(PendingAction::SystemCreate {
            name: "forge".to_owned(),
            description: Some("Team system".to_owned()),
        }),
        CommandResult::SystemCreated(system_fixture("forge")),
    );

    let outcome = session.outcome.as_ref().expect("system create must set an outcome");
    assert_eq!(outcome.scope, "forge");
    assert_eq!(outcome.message, "Created system forge");
    assert_eq!(session.selected_system.as_deref(), Some("forge"));
    assert_eq!(queued_commands(&session), vec![Command::SystemList]);
}

#[test]
fn import_success_selects_the_application_and_refreshes_the_affected_catalogs() {
    let mut session = Session::new();
    session.queued.clear();

    session.apply_success(
        Request::Action(PendingAction::ImportApplication {
            repository: "https://example.test/app.git".to_owned(),
            system_name: Some("forge".to_owned()),
            manifest_path: None,
        }),
        CommandResult::ApplicationImported(entry("atlas").summary),
    );

    assert_eq!(session.selected_application.as_deref(), Some("atlas"));
    assert_eq!(queued_commands(&session), vec![Command::ListApplications, Command::SystemList]);

    // With the system details open, the member list must be reloaded too.
    session.queued.clear();
    session.system_details = QueryState::Ready(SystemDetails {
        system: system_fixture("forge"),
        applications: Vec::new(),
    });
    session.apply_success(
        Request::Action(PendingAction::ImportApplication {
            repository: "https://example.test/other.git".to_owned(),
            system_name: Some("forge".to_owned()),
            manifest_path: None,
        }),
        CommandResult::ApplicationImported(entry("beacon").summary),
    );
    assert_eq!(
        queued_commands(&session),
        vec![
            Command::ListApplications,
            Command::SystemList,
            Command::SystemShow { name: "forge".to_owned() },
        ]
    );
}

#[test]
fn deployments_tab_enter_loads_history_and_status_for_the_selection() {
    let mut session = Session::new();
    session.queued.clear();
    session.catalog = QueryState::Ready(vec![entry("atlas")]);
    session.selected_application = Some("atlas".to_owned());

    press(&mut session, KeyCode::Char('3'));
    press(&mut session, KeyCode::Enter);

    assert!(matches!(session.focus, Focus::Details));
    assert_eq!(
        queued_commands(&session),
        vec![
            Command::ListDeployments { application_name: "atlas".to_owned() },
            Command::ApplicationStatus { application_name: "atlas".to_owned() },
        ]
    );
}

#[test]
fn first_system_details_load_without_an_explicit_request() {
    let mut session = Session::new();
    session.queued.clear();

    session.apply_systems(vec![system_fixture("forge"), system_fixture("atelier")]);

    assert_eq!(session.selected_system.as_deref(), Some("forge"));
    assert!(matches!(session.system_details, QueryState::Loading));
    assert_eq!(queued_commands(&session), vec![Command::SystemShow { name: "forge".to_owned() }]);
}

#[test]
fn system_selection_follows_the_arrows_and_reloads_the_details() {
    let mut session = Session::new();
    session.queued.clear();
    session.tab = Tab::Systems;
    session.apply_systems(vec![system_fixture("forge"), system_fixture("atelier")]);
    session.queued.clear();
    session.system_details = QueryState::Ready(SystemDetails {
        system: system_fixture("forge"),
        applications: Vec::new(),
    });

    press(&mut session, KeyCode::Down);

    assert_eq!(session.selected_system.as_deref(), Some("atelier"));
    assert!(matches!(session.system_details, QueryState::Loading));
    assert_eq!(
        queued_commands(&session),
        vec![Command::SystemShow { name: "atelier".to_owned() }]
    );
}

#[test]
fn entering_the_deployments_tab_loads_the_selection_observations() {
    let mut session = Session::new();
    session.queued.clear();
    session.catalog = QueryState::Ready(vec![entry("atlas")]);
    session.selected_application = Some("atlas".to_owned());
    session.observations_application = None;

    press(&mut session, KeyCode::Char('3'));

    assert!(matches!(session.tab, Tab::Deployments));
    assert_eq!(
        queued_commands(&session),
        vec![
            Command::ListDeployments { application_name: "atlas".to_owned() },
            Command::ApplicationStatus { application_name: "atlas".to_owned() },
        ]
    );
}

#[test]
fn observation_requests_follow_each_selection_change() {
    let mut session = Session::new();
    session.queued.clear();
    session.tab = Tab::Deployments;
    session.catalog = QueryState::Ready(vec![entry("atlas"), entry("beacon")]);
    session.selected_application = Some("atlas".to_owned());
    session.observations_application = Some("atlas".to_owned());

    press(&mut session, KeyCode::Down);

    assert_eq!(session.selected_application.as_deref(), Some("beacon"));
    assert_eq!(
        queued_commands(&session),
        vec![
            Command::ListDeployments { application_name: "beacon".to_owned() },
            Command::ApplicationStatus { application_name: "beacon".to_owned() },
        ]
    );
}

#[test]
fn a_new_session_requests_the_catalog_then_the_systems_one_at_a_time() {
    let mut session = Session::new();
    assert!(session.is_busy());

    let first = session.dispatch_next();
    assert_eq!(first, Some((1, Command::ListApplications)));
    // Nothing else dispatches while the first request is with the worker.
    assert_eq!(session.dispatch_next(), None);

    assert_eq!(
        session.receive_finished(2, Ok(CommandResult::Applications(vec![entry("atlas")]))),
        Err(SessionError::ReplyOrderChanged)
    );
    assert_eq!(SessionError::ReplyOrderChanged.message(), "TUI worker reply order changed");
    assert_eq!(
        session.receive_event(1, DeploymentEvent::StepStarted { step: DeploymentStep::PullImage }),
        Err(SessionError::UnexpectedReply)
    );
}

#[test]
fn replies_apply_to_the_dispatched_request_and_the_next_one_follows() {
    let mut session = Session::new();
    assert_eq!(session.dispatch_next(), Some((1, Command::ListApplications)));
    assert_eq!(
        session.receive_finished(1, Ok(CommandResult::Applications(vec![entry("atlas")]))),
        Ok(())
    );
    // The first application is selected; its observations wait behind the systems.
    assert_eq!(session.selected_application.as_deref(), Some("atlas"));
    assert!(session.active.is_none());
    assert_eq!(session.dispatch_next(), Some((2, Command::SystemList)));
    assert_eq!(
        session.receive_finished(2, Err(WorkerError {
            class: CliErrorClass::External,
            message: "database unavailable".to_owned(),
        })),
        Ok(())
    );
    assert!(matches!(&session.systems, QueryState::Failed(error) if error == "External: database unavailable"));
    assert_eq!(session.error.as_deref(), Some("External: database unavailable"));
}

#[test]
fn a_deployment_dispatch_opens_a_log_that_records_its_events() {
    let mut session = detail_session();
    session.execute_action(PendingAction::Rollback { application_name: "atlas".to_owned() });
    assert_eq!(
        session.dispatch_next(),
        Some((1, Command::Rollback { application_name: "atlas".to_owned() }))
    );
    assert!(session.deployment_log.as_ref().is_some_and(|log| log.lines.is_empty()));
    assert_eq!(
        session.receive_event(1, DeploymentEvent::StepStarted { step: DeploymentStep::PullImage }),
        Ok(())
    );
    assert_eq!(
        session.deployment_log.as_ref().map(|log| log.lines.clone()),
        Some(vec!["pull image: started".to_owned()])
    );
}

#[test]
fn quitting_drops_waiting_work_and_exits_after_the_dispatched_request() {
    let mut session = Session::new();
    assert_eq!(session.dispatch_next(), Some((1, Command::ListApplications)));
    press(&mut session, KeyCode::Char('q'));
    assert!(session.queued.is_empty());
    assert!(!session.should_exit());
    assert_eq!(
        session.receive_finished(1, Ok(CommandResult::Applications(Vec::new()))),
        Ok(())
    );
    assert!(session.should_exit());
}

#[test]
fn adding_an_application_needs_a_selected_system() {
    let mut session = Session::new();
    session.queued.clear();
    session.tab = Tab::Systems;
    press(&mut session, KeyCode::Char('a'));
    assert!(matches!(session.mode, Mode::Normal));
    assert_eq!(session.error.as_deref(), Some("Select a system before adding an application."));
}

#[test]
fn a_result_for_another_request_is_reported_as_unexpected() {
    let mut session = detail_session();
    session.apply_success(Request::Catalog, CommandResult::Systems(Vec::new()));
    assert!(matches!(session.catalog, QueryState::Failed(_)));
    assert_eq!(session.error.as_deref(), Some("TUI received an unexpected control result"));
    assert_eq!(session.selected_application, None);
}
