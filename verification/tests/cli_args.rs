use pneuma::cli::args::{
    AppCommands, CiCommands, Commands, DatabaseCommands, InvocationTarget, SystemCommands,
    VisibilityArg, VisibilityCommands,
};
use pneuma::cli::dispatch::{
    announces_database_path, command_start_messages, deployment_request, requested_input,
    DeploymentRequest,
};
use pneuma::cli::error::{classify_deployment_failure_code, CliError, CliErrorClass};
use pneuma::control::Command as ControlCommand;
use pneuma::domain::deployment::DeploymentFailureCode;
use pneuma::domain::exposure::Visibility;

#[test]
fn ordinary_commands_map_directly_to_control() {
    let cases = [
        (
            Commands::System {
                command: SystemCommands::Create {
                    name: "platform".to_owned(),
                    description: Some("Platform services".to_owned()),
                },
            },
            ControlCommand::SystemCreate {
                name: "platform".to_owned(),
                description: Some("Platform services".to_owned()),
            },
        ),
        (
            Commands::App {
                command: AppCommands::Import {
                    repository: "https://git.example/portal.git".to_owned(),
                    system: Some("platform".to_owned()),
                    manifest: Some("deploy/pneuma.toml".to_owned()),
                },
            },
            ControlCommand::ImportApplication {
                repository: "https://git.example/portal.git".to_owned(),
                system_name: Some("platform".to_owned()),
                manifest_path: Some("deploy/pneuma.toml".to_owned()),
            },
        ),
        (
            Commands::App {
                command: AppCommands::Visibility {
                    command: VisibilityCommands::Update {
                        application_name: "portal".to_owned(),
                        visibility: VisibilityArg::Public,
                    },
                },
            },
            ControlCommand::VisibilitySet {
                application_name: "portal".to_owned(),
                visibility: Visibility::Public,
            },
        ),
        (
            Commands::Database {
                command: DatabaseCommands::Restore { path: "backup.sqlite3".to_owned() },
            },
            ControlCommand::DatabaseRestore { path: "backup.sqlite3".to_owned() },
        ),
        (
            Commands::Reconcile { application_name: "portal".to_owned() },
            ControlCommand::Reconcile { application_name: "portal".to_owned() },
        ),
    ];

    for (parsed, expected) in cases {
        assert_eq!(
            InvocationTarget::try_from(parsed).expect("command input must normalize"),
            InvocationTarget::Control(expected)
        );
    }
}

#[test]
fn image_and_branch_deploy_options_map_directly_to_control() {
    let image = InvocationTarget::try_from(Commands::App {
        command: AppCommands::Deploy {
            application_name: "portal".to_owned(),
            image: Some("registry.example/portal@sha256:abc".to_owned()),
            branch: None,
        },
    })
    .expect("image deploy input must normalize");
    assert_eq!(
        image,
        InvocationTarget::Control(ControlCommand::DeployImage {
            application_name: "portal".to_owned(),
            image_reference: "registry.example/portal@sha256:abc".to_owned(),
        })
    );

    let branch = InvocationTarget::try_from(Commands::App {
        command: AppCommands::Deploy {
            application_name: "portal".to_owned(),
            image: None,
            branch: Some("main".to_owned()),
        },
    })
    .expect("branch deploy input must normalize");
    assert_eq!(
        branch,
        InvocationTarget::Control(ControlCommand::DeployBranch {
            application_name: "portal".to_owned(),
            branch: "main".to_owned(),
        })
    );
}

#[test]
fn version_and_ci_remain_adapter_only_targets() {
    assert_eq!(
        InvocationTarget::try_from(Commands::Version).expect("version input must normalize"),
        InvocationTarget::Version
    );
    assert_eq!(
        InvocationTarget::try_from(Commands::Tui).expect("TUI input must normalize"),
        InvocationTarget::Tui
    );
    assert_eq!(
        InvocationTarget::try_from(Commands::Ci { command: CiCommands::Dispatch })
            .expect("ci dispatch input must normalize"),
        InvocationTarget::CiDispatch
    );
}

#[test]
fn a_deploy_without_a_source_is_a_usage_error() {
    let error = InvocationTarget::try_from(Commands::App {
        command: AppCommands::Deploy {
            application_name: "portal".to_owned(),
            image: None,
            branch: None,
        },
    })
    .expect_err("missing deploy source must fail normalization");
    assert!(matches!(error, CliError::MissingDeployOption));
    assert_eq!(error.message(), "either --image or --branch must be specified");
    assert_eq!(error.class(), CliErrorClass::Usage);
}

#[test]
fn exit_codes_are_stable_per_class() {
    assert_eq!(CliErrorClass::Failure.exit_code(), 1);
    assert_eq!(CliErrorClass::Usage.exit_code(), 2);
    assert_eq!(CliErrorClass::NotFound.exit_code(), 3);
    assert_eq!(CliErrorClass::Conflict.exit_code(), 4);
    assert_eq!(CliErrorClass::External.exit_code(), 5);
}

#[test]
fn deployment_failure_codes_classify_external_stages_and_generic_failures() {
    let external_codes = [
        DeploymentFailureCode::RuntimeUnitCreation,
        DeploymentFailureCode::RuntimeUnitReload,
        DeploymentFailureCode::RuntimeStart,
        DeploymentFailureCode::RuntimeResolution,
        DeploymentFailureCode::RuntimeObservation,
        DeploymentFailureCode::HealthCheck,
        DeploymentFailureCode::CaddyMaterialization,
        DeploymentFailureCode::ExternalHealthCheck,
    ];
    let generic_codes = [
        DeploymentFailureCode::TestGate,
        DeploymentFailureCode::RuntimeReconciliation,
        DeploymentFailureCode::PublicConfigurationMissing,
        DeploymentFailureCode::RuntimePortAllocation,
        DeploymentFailureCode::RuntimeRegistration,
        DeploymentFailureCode::RuntimePortPersistence,
        DeploymentFailureCode::DeploymentTransition,
        DeploymentFailureCode::ExposurePreparation,
        DeploymentFailureCode::CandidatePromotion,
        DeploymentFailureCode::OperationInterrupted,
    ];

    for code in external_codes {
        assert_eq!(classify_deployment_failure_code(code), CliErrorClass::External, "{}", code.as_str());
    }
    for code in generic_codes {
        assert_eq!(classify_deployment_failure_code(code), CliErrorClass::Failure, "{}", code.as_str());
    }
}

#[test]
fn cli_errors_keep_their_messages_and_classes() {
    let error = CliError::ApplicationNotFound { application_name: "portal".to_owned() };
    assert_eq!(error.message(), "application `portal` was not found");
    assert_eq!(error.class(), CliErrorClass::NotFound);
    assert_eq!(CliError::Doctor.message(), "one or more diagnostic checks failed");
    assert_eq!(CliError::Doctor.class().exit_code(), 1);
    assert_eq!(CliError::TuiRequiresTerminal.class().exit_code(), 2);
}

#[test]
fn deployment_classification_selects_event_capable_execution() {
    let image = ControlCommand::DeployImage {
        application_name: "portal".to_owned(),
        image_reference: "registry.example/portal@sha256:abc".to_owned(),
    };
    let branch = ControlCommand::DeployBranch {
        application_name: "portal".to_owned(),
        branch: "main".to_owned(),
    };
    let rollback = ControlCommand::Rollback { application_name: "portal".to_owned() };
    let ordinary = ControlCommand::ApplicationStatus { application_name: "portal".to_owned() };

    assert!(matches!(
        deployment_request(&image),
        Some(DeploymentRequest::Image(reference))
            if reference == "registry.example/portal@sha256:abc"
    ));
    assert!(matches!(
        deployment_request(&branch),
        Some(DeploymentRequest::Branch(branch)) if branch == "main"
    ));
    assert!(matches!(deployment_request(&rollback), Some(DeploymentRequest::Rollback)));
    assert!(deployment_request(&ordinary).is_none());
}

#[test]
fn deployment_requests_report_their_input_and_commands_announce_themselves() {
    assert_eq!(
        requested_input(&DeploymentRequest::Branch("main".to_owned())),
        Some(("branch", "main"))
    );
    assert_eq!(requested_input(&DeploymentRequest::Rollback), None);
    assert!(!announces_database_path(&ControlCommand::Doctor));
    assert!(announces_database_path(&ControlCommand::SystemList));
    assert_eq!(
        command_start_messages(&ControlCommand::VisibilitySet {
            application_name: "portal".to_owned(),
            visibility: Visibility::Internal,
        }),
        vec![
            "resolve application by name: portal".to_owned(),
            "set visibility of application portal to Internal".to_owned(),
        ]
    );
    assert!(command_start_messages(&ControlCommand::DatabaseBackup { path: "x".to_owned() }).is_empty());
}
