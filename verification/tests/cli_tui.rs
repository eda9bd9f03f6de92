use pneuma::cli::error::{CliError, CliErrorClass};
use pneuma::cli::tui::{
    application_entry_name, error_class_label, next_selection, preserved_selection, DeployForm,
    DeploySource, DeploymentLog, Form, PendingAction, Request, Tab, WorkerError,
};
use pneuma::control::outcome::ApplicationCatalogEntry;
use pneuma::control::Command;
use pneuma::domain::application::{ApplicationName, ApplicationSummary, DesiredRuntimeState};
use pneuma::domain::exposure::Visibility;
use pneuma::domain::identity::{ApplicationId, SystemId};

fn entry(name: &str) -> ApplicationCatalogEntry {
    ApplicationCatalogEntry {
        summary: ApplicationSummary {
            id: ApplicationId::new("11111111111111111111111111111111").unwrap(),
            system_id: Some(SystemId::new("22222222222222222222222222222222").unwrap()),
            name: ApplicationName::new(name).unwrap(),
            repository: Some(format!("https://example.test/{name}.git")),
            default_branch: Some("main".to_owned()),
            desired_runtime_state: DesiredRuntimeState::Running,
            active_deployment_id: None,
            specification_version: 1,
        },
        deployed: false,
    }
}

fn names(entries: &[ApplicationCatalogEntry]) -> Vec<String> {
    entries.iter().map(|entry| application_entry_name(entry).to_owned()).collect()
}

#[test]
fn catalog_refresh_preserves_selection_or_falls_back_to_first_entry() {
    let entries = vec![entry("atlas"), entry("beacon")];

    assert_eq!(
        preserved_selection(&names(&entries), Some("beacon".to_owned())),
        Some("beacon".to_owned())
    );
    assert_eq!(
        preserved_selection(&names(&entries), Some("removed".to_owned())),
        Some("atlas".to_owned())
    );
    assert_eq!(preserved_selection(&names(&[]), Some("atlas".to_owned())), None);
}

#[test]
fn catalog_navigation_stops_at_the_list_boundaries() {
    let entries = vec![entry("atlas"), entry("beacon")];

    assert_eq!(next_selection(&names(&entries), Some("atlas"), -1), Some("atlas".to_owned()));
    assert_eq!(next_selection(&names(&entries), Some("beacon"), 1), Some("beacon".to_owned()));
    assert_eq!(next_selection(&names(&[]), None, 1), None);
}

#[test]
fn lifecycle_and_reconcile_actions_map_to_the_existing_commands() {
    let application_name = "atlas".to_owned();

    assert_eq!(
        PendingAction::Start { application_name: application_name.clone() }.command(),
        Command::ApplicationStart { application_name: application_name.clone() }
    );
    assert_eq!(
        PendingAction::Stop { application_name: application_name.clone() }.command(),
        Command::ApplicationStop { application_name: application_name.clone() }
    );
    assert_eq!(
        PendingAction::Reconcile { application_name: application_name.clone() }.command(),
        Command::Reconcile { application_name: application_name.clone() }
    );
    assert_eq!(
        PendingAction::SetVisibility {
            application_name: application_name.clone(),
            visibility: Visibility::Internal,
        }
        .command(),
        Command::VisibilitySet { application_name, visibility: Visibility::Internal }
    );
}

#[test]
fn navigation_moves_between_neighbours_and_from_no_selection_to_an_end() {
    let entries = names(&[entry("atlas"), entry("beacon"), entry("comet")]);
    assert_eq!(next_selection(&entries, Some("atlas"), 1), Some("beacon".to_owned()));
    assert_eq!(next_selection(&entries, Some("comet"), -1), Some("beacon".to_owned()));
    assert_eq!(next_selection(&entries, None, 1), Some("atlas".to_owned()));
    assert_eq!(next_selection(&entries, None, -1), Some("comet".to_owned()));
    assert_eq!(next_selection(&entries, Some("atlas"), 0), Some("atlas".to_owned()));
}

#[test]
fn tabs_cycle_in_both_directions() {
    assert_eq!(Tab::Systems.next(), Tab::Applications);
    assert_eq!(Tab::Deployments.next(), Tab::Systems);
    assert_eq!(Tab::Systems.previous(), Tab::Deployments);
    assert_eq!(Tab::from_index(4), Tab::Applications);
    assert_eq!(Tab::Applications.label(), "Applications");
}

#[test]
fn log_view_clamps_between_the_oldest_row_and_the_tail() {
    let mut log = DeploymentLog::new("atlas".to_owned());
    log.total_rows = 10;
    log.viewport_rows = 4;
    assert_eq!(log.max_scroll(), 6);
    assert_eq!(log.render_offset(), 6);
    log.scroll_up(2);
    assert!(!log.tail_follow);
    assert_eq!(log.render_offset(), 4);
    log.scroll_up(10);
    assert_eq!(log.render_offset(), 0);
    log.scroll_down(3);
    assert_eq!(log.render_offset(), 3);
    assert!(!log.tail_follow);
    log.scroll_down(100);
    assert!(log.tail_follow);
    assert_eq!(log.render_offset(), 6);
    log.scroll_to_start();
    assert_eq!(log.render_offset(), 0);
    log.scroll_to_end();
    assert!(log.tail_follow);
}

#[test]
fn deploy_form_edits_and_submits_the_selected_source() {
    let mut form = DeployForm::new("atlas".to_owned());
    assert!(form.submit().is_none());
    assert_eq!(form.error.as_deref(), Some("Enter a branch or tag to deploy."));
    for character in "mainx".chars() {
        form.push(character);
    }
    form.backspace();
    assert_eq!(form.value(), "main");
    assert_eq!(
        form.submit(),
        Some(PendingAction::DeployBranch { application_name: "atlas".to_owned(), branch: "main".to_owned() })
    );
    form.toggle_source();
    assert_eq!(form.source, DeploySource::Image);
    assert!(form.submit().is_none());
    assert_eq!(form.error.as_deref(), Some("Enter a digest-pinned image reference."));
}

#[test]
fn forms_validate_locally_before_submitting() {
    let mut form = Form::system_create();
    for character in "Bad Name".chars() {
        form.push(character);
    }
    assert!(form.submit().is_none());
    assert_eq!(form.error.as_deref(), Some("invalid system name `Bad Name`"));

    let mut form = Form::import_into_system("platform".to_owned());
    for character in "https://git.example/portal.git".chars() {
        form.push(character);
    }
    form.focus_next();
    for character in "../escape".chars() {
        form.push(character);
    }
    assert!(form.submit().is_none());
    assert_eq!(form.error.as_deref(), Some("invalid relative manifest path `../escape`"));
    for _ in 0.."../escape".len() {
        form.backspace();
    }
    assert_eq!(
        form.submit(),
        Some(PendingAction::ImportApplication {
            repository: "https://git.example/portal.git".to_owned(),
            system_name: Some("platform".to_owned()),
            manifest_path: None,
        })
    );

    let mut form = Form::import_application();
    for character in "/local/path".chars() {
        form.push(character);
    }
    assert!(form.submit().is_none());
    assert_eq!(
        form.error.as_deref(),
        Some("Enter a remote Git repository (a transport URL or git@host:path).")
    );
}

#[test]
fn confirmations_and_requests_describe_the_exact_command() {
    let rollback = PendingAction::Rollback { application_name: "atlas".to_owned() };
    assert!(rollback.is_deployment());
    assert_eq!(
        rollback.confirmation_text(),
        "Roll back atlas to its previous successful release? This deploys a new rollback deployment."
    );
    assert_eq!(rollback.application_name(), Some("atlas"));
    let request = Request::Action(rollback.clone());
    assert_eq!(request.command(), Command::Rollback { application_name: "atlas".to_owned() });
    assert_eq!(request.action(), Some(&rollback));
    assert_eq!(Request::Catalog.command(), Command::ListApplications);
}

#[test]
fn worker_errors_show_their_class_label() {
    let error = WorkerError::from_cli_error(&CliError::MissingDeployOption);
    assert_eq!(error.display(), "Usage: either --image or --branch must be specified");
    assert_eq!(error_class_label(CliErrorClass::NotFound), "Not found");
}
