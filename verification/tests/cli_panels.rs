use pneuma::cli::dispatch::render_command_result;
use pneuma::cli::error::CliError;
use pneuma::cli::panels::{
    application_details_lines, catalog_listing, deploy_form_view, deployment_history_lines,
    deployment_log_text, deployment_log_title, endpoint_string, footer_line, form_view,
    runtime_lines, system_details_lines, systems_listing, ListingView, PanelLine, Tone,
};
use pneuma::cli::session::{Focus, KeyCode, KeyEvent, Mode, QueryState, Session};
use pneuma::cli::tui::{DeploymentLog, DeploymentLogState, Request, Tab};
use pneuma::control::diagnostics::{CheckOutcome, DoctorCheck, DoctorReport};
use pneuma::control::outcome::{ApplicationCatalogEntry, RuntimeObservation, SystemDetails};
use pneuma::control::CommandResult;
use pneuma::domain::application::{ApplicationName, ApplicationSummary, DesiredRuntimeState};
use pneuma::domain::identity::{ApplicationId, RuntimeInstanceId, SystemId};
use pneuma::domain::runtime::{ContainerId, IpAddress, ObservedRuntimeState, SocketAddress};
use pneuma::domain::system::{System, SystemName};

fn entry(name: &str) -> ApplicationCatalogEntry {
    ApplicationCatalogEntry {
        summary: ApplicationSummary {
            id: ApplicationId::new("11111111111111111111111111111111").unwrap(),
            system_id: Some(SystemId::new("22222222222222222222222222222222").unwrap()),
            name: ApplicationName::new(name).unwrap(),
            repository: Some(format!("https://example.test/{name}.git")),
            default_branch: Some("main".to_owned()),
            desired_runtime_state: DesiredRuntimeState::Running,
            active_deployment_id: None,
            specification_version: 1,
        },
        deployed: false,
    }
}

fn text(lines: &[PanelLine]) -> String {
    lines
        .iter()
        .map(|line| line.segments.iter().map(|segment| segment.text.as_str()).collect::<String>())
        .collect::<Vec<_>>()
        .join("\n")
}

fn line_text(line: &PanelLine) -> String {
    line.segments.iter().map(|segment| segment.text.as_str()).collect()
}

#[test]
fn application_details_use_persisted_and_not_runtime_labels() {
    let rendered = text(&application_details_lines(&entry("atlas")));

    assert!(rendered.contains("Desired runtime state: Running"));
    assert!(rendered.contains("Has successful deployment: no"));
    assert!(rendered.contains("Active deployment ID: None"));
}

#[test]
fn system_details_render_the_persisted_grouping_and_members() {
    let details = SystemDetails {
        system: System {
            id: SystemId::new("33333333333333333333333333333333").unwrap(),
            name: SystemName::new("forge").unwrap(),
            description: Some("Team system".to_owned()),
        },
        applications: vec![entry("atlas").summary],
    };

    let rendered = text(&system_details_lines(&details));
    assert!(rendered.contains("System: forge"));
    assert!(rendered.contains("Description: Team system"));
    assert!(rendered.contains("Applications: 1"));
    assert!(rendered.contains("atlas"));
}

#[test]
fn an_empty_system_invites_adding_an_application() {
    let details = SystemDetails {
        system: System {
            id: SystemId::new("33333333333333333333333333333333").unwrap(),
            name: SystemName::new("forge").unwrap(),
            description: None,
        },
        applications: Vec::new(),
    };
    let lines = system_details_lines(&details);
    assert_eq!(
        text(&lines),
        "System: forge\nDescription: None\nApplications: 0\nNo applications belong to this system. Press a to add one."
    );
    assert_eq!(lines[1].segments[1].tone, Tone::Muted);
}

#[test]
fn runtime_panel_reports_each_query_state() {
    assert_eq!(
        text(&runtime_lines(&QueryState::Idle)),
        "The runtime status was not requested yet. Press r to load it."
    );
    assert_eq!(text(&runtime_lines(&QueryState::Loading)), "Loading runtime status...");
    let failed = runtime_lines(&QueryState::Failed("External: podman unavailable".to_owned()));
    assert_eq!(text(&failed), "Could not load runtime status:\nExternal: podman unavailable");
    assert_eq!(failed[1].segments[0].tone, Tone::Bad);

    let observation = RuntimeObservation {
        desired_runtime_state: DesiredRuntimeState::Running,
        observed_runtime_state: ObservedRuntimeState::Stopped,
        runtime_id: RuntimeInstanceId::new("33333333333333333333333333333333").unwrap(),
        container_id: ContainerId::from_text("abcdef123456"),
        observed_endpoint: Some(SocketAddress { ip: IpAddress::V4(127, 0, 0, 1), port: 30000 }),
    };
    let ready = runtime_lines(&QueryState::Ready(observation));
    assert_eq!(
        text(&ready),
        "Desired runtime state: Running\nObserved runtime state: Stopped\nRuntime ID: 33333333333333333333333333333333\nContainer ID: abcdef123456\nObserved endpoint: 127.0.0.1:30000"
    );
    assert_eq!(ready[0].segments[1].tone, Tone::Good);
    assert_eq!(ready[1].segments[1].tone, Tone::Quiet);
}

#[test]
fn endpoints_render_as_address_and_port() {
    assert_eq!(
        endpoint_string(SocketAddress { ip: IpAddress::V4(10, 0, 200, 7), port: 8080 }),
        "10.0.200.7:8080"
    );
    assert_eq!(
        endpoint_string(SocketAddress { ip: IpAddress::V6(0xfe80, 0, 0, 0, 0, 0, 0, 0x1a), port: 443 }),
        "[fe80:0:0:0:0:0:0:1a]:443"
    );
}

#[test]
fn deployment_history_panel_reports_an_empty_history() {
    assert_eq!(text(&deployment_history_lines(&QueryState::Ready(Vec::new()))), "No deployments.");
    assert_eq!(text(&deployment_history_lines(&QueryState::Loading)), "Loading deployment history...");
}

#[test]
fn a_failed_deployment_log_ends_with_its_failure() {
    let mut log = DeploymentLog::new("atlas".to_owned());
    log.lines = vec!["Deploying atlas...".to_owned()];
    log.state = DeploymentLogState::Failed("External: pull failed".to_owned());
    let lines = deployment_log_text(&log);
    assert_eq!(text(&lines), "Deploying atlas...\nDeployment failed: External: pull failed");
    assert_eq!(lines[1].segments[0].tone, Tone::Bad);
}

#[test]
fn the_focused_log_title_names_the_state_and_the_visible_rows() {
    let mut log = DeploymentLog::new("atlas".to_owned());
    log.lines = vec!["Deploying atlas...".to_owned(), "pull image: started".to_owned()];
    log.total_rows = 2;
    log.viewport_rows = 10;
    let title = deployment_log_title(&log, true);
    assert_eq!(title.text, " Deployment log · atlas · running · rows 1–2 of 2 ");
    assert_eq!(title.tone, Tone::Accent);

    assert_eq!(deployment_log_title(&log, false).text, " Deployment progress ");
    log.state = DeploymentLogState::Completed;
    assert_eq!(deployment_log_title(&log, false).text, " Deployment log (completed) ");
}

fn detail_session() -> Session {
    let mut session = Session::new();
    session.queued.clear();
    session.catalog = QueryState::Ready(vec![entry("atlas")]);
    session.selected_application = Some("atlas".to_owned());
    session.observations_application = Some("atlas".to_owned());
    session.tab = Tab::Applications;
    session.focus = Focus::Details;
    session
}

#[test]
fn the_footer_advertises_the_keys_of_the_focused_pane() {
    let mut session = detail_session();
    session.deployment_log = Some(DeploymentLog::new("atlas".to_owned()));
    let details = line_text(&footer_line(&session));
    assert!(details.contains(" Enter  log"), "{details:?}");
    assert!(details.contains(" s  start"), "{details:?}");

    session.focus = Focus::Log;
    let log = line_text(&footer_line(&session));
    assert!(log.contains("oldest/newest"), "{log:?}");

    session.focus = Focus::Listing;
    let listing = footer_line(&session);
    assert!(line_text(&listing).contains(" n  import"));
    assert_eq!(listing.segments[0].tone, Tone::KeyBadge);

    session.active = Some((3, Request::Catalog));
    assert!(line_text(&footer_line(&session)).contains("navigation is disabled"));
    session.active = None;
    session.error = Some("Conflict: busy".to_owned());
    assert_eq!(line_text(&footer_line(&session)), " error  Conflict: busy");
}

#[test]
fn unhealthy_doctor_result_keeps_the_diagnostic_failure_class() {
    let report = DoctorReport {
        checks: vec![DoctorCheck::DatabaseConnection(CheckOutcome::Failed {
            detail: "cannot open /missing".to_owned(),
        })],
    };

    let rendered = render_command_result(&CommandResult::Doctor(report));

    assert!(matches!(rendered.failure, Some(CliError::Doctor)));
    assert!(rendered.output.is_some());
}

#[test]
fn empty_listings_print_nothing_and_deployments_announce_their_query() {
    let rendered = render_command_result(&CommandResult::Applications(Vec::new()));
    assert!(rendered.output.is_none());
    assert!(rendered.failure.is_none());

    let rendered = render_command_result(&CommandResult::ApplicationDeployments {
        application_name: ApplicationName::new("atlas").unwrap(),
        deployments: Vec::new(),
    });
    assert_eq!(rendered.verbose_lines, vec!["list deployments of application atlas".to_owned()]);

    let rendered = render_command_result(&CommandResult::DatabaseBackedUp {
        path: "/tmp/backup.sqlite3".to_owned(),
    });
    assert_eq!(rendered.output.as_deref(), Some("Database backup: /tmp/backup.sqlite3"));
}

fn key(code: KeyCode) -> KeyEvent {
    KeyEvent::new(code, false)
}

fn type_text(session: &mut Session, text: &str) {
    for character in text.chars() {
        session.handle_key(key(KeyCode::Char(character)));
    }
}

// A 100-column terminal gives form popups 60 columns, 58 inside the border.
const POPUP_INTERIOR: u16 = 58;

#[test]
fn the_deploy_form_cursor_tracks_the_edited_field() {

    let mut session = detail_session();
    session.handle_key(key(KeyCode::Char('d')));
    type_text(&mut session, "main");
    let Mode::Deploy(form) = &session.mode else { panic!("deploy form must be open") };
    let before = deploy_form_view(form, POPUP_INTERIOR);

    session.handle_key(key(KeyCode::Char('z')));
    let Mode::Deploy(form) = &session.mode else { panic!("deploy form must be open") };
    let after_push = deploy_form_view(form, POPUP_INTERIOR);
    assert_eq!(after_push.cursor_row, before.cursor_row);
    assert_eq!(after_push.cursor_column, before.cursor_column + 1);

    session.handle_key(key(KeyCode::Backspace));
    let Mode::Deploy(form) = &session.mode else { panic!("deploy form must be open") };
    let after_backspace = deploy_form_view(form, POPUP_INTERIOR);
    assert_eq!(after_backspace.cursor_column, before.cursor_column);
}

#[test]
fn the_multi_field_form_cursor_tracks_the_focused_field() {

    let mut session = Session::new();
    session.queued.clear();
    session.handle_key(key(KeyCode::Char('1')));
    session.handle_key(key(KeyCode::Char('n')));
    type_text(&mut session, "forge");
    let Mode::Form(form) = &session.mode else { panic!("form must be open") };
    let before = form_view(form, POPUP_INTERIOR);

    session.handle_key(key(KeyCode::Tab));
    let Mode::Form(form) = &session.mode else { panic!("form must be open") };
    let after = form_view(form, POPUP_INTERIOR);
    assert_eq!(after.cursor_row, before.cursor_row + 1);

    session.handle_key(key(KeyCode::Char('x')));
    let Mode::Form(form) = &session.mode else { panic!("form must be open") };
    let after_push = form_view(form, POPUP_INTERIOR);
    assert_eq!(after_push.cursor_row, after.cursor_row);
    assert_eq!(after_push.cursor_column, after.cursor_column + 1);
}

#[test]
fn a_long_field_value_shows_its_end_while_edited() {

    let mut session = Session::new();
    session.queued.clear();
    session.handle_key(key(KeyCode::Char('n')));
    type_text(&mut session, "https://example.test/a-very-long-repository-name.git");
    let Mode::Form(form) = &session.mode else { panic!("form must be open") };
    // "Repository: " takes 12 columns, the cursor one more: 7 columns remain.
    let view = form_view(form, 20);
    assert_eq!(view.lines[0].segments[1].text, "ame.git");
    assert_eq!(view.cursor_column, 19);
    assert_eq!(view.cursor_row, 0);
    assert_eq!(view.height, 2 + 3 + 2 + 2);
}

#[test]
fn listings_mark_the_selected_entry() {

    let entries = vec![entry("atlas"), entry("beacon")];
    let view = catalog_listing(&QueryState::Ready(entries), &Some("beacon".to_owned()));
    let ListingView::Items { items, selected } = view else { panic!("entries must be listed") };
    assert_eq!(selected, Some(1));
    assert_eq!(text(&items[0]), "atlas\n  No successful deployment");

    let ListingView::Notice(notice) = systems_listing(&QueryState::Ready(Vec::new()), &None) else {
        panic!("an empty listing shows a notice")
    };
    assert_eq!(text(&notice), "No systems are registered. Press n to create one.");
}
