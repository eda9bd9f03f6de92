use pneuma::cli::progress::{
    deployment_step_label, render_deployment_event, render_stable_event, AnimationInput,
    AnimationState,
};
use pneuma::control::outcome::{DeploymentEvent, DeploymentStep, RetirementWarning};
use pneuma::domain::application::ApplicationName;
use pneuma::domain::deployment::{DeploymentFailureCode, DeploymentStatus};
use pneuma::domain::identity::{DeploymentId, RuntimeInstanceId};

#[test]
fn keeps_verbose_step_text_stable() {
    assert_eq!(
        render_deployment_event(&DeploymentEvent::StepStarted { step: DeploymentStep::PullImage }),
        "pull image: started"
    );
}

#[test]
fn state_changes_render_the_shared_deployment_status_label() {
    assert_eq!(
        render_deployment_event(&DeploymentEvent::StateChanged {
            deployment_id: DeploymentId::new("0f8d3a2c41b64d7e9a0c5b6e1f2d3a4b").unwrap(),
            status: DeploymentStatus::Activating,
        }),
        "deployment 0f8d3a2c41b64d7e9a0c5b6e1f2d3a4b: state changed to Activating"
    );
}

#[test]
fn labels_every_animated_step() {
    assert_eq!(deployment_step_label(DeploymentStep::ResolveBranch), "resolve branch");
    assert_eq!(deployment_step_label(DeploymentStep::RetirePreviousRuntime), "retire previous runtime");
}

#[test]
fn failures_and_warnings_render_with_their_codes() {
    let deployment_id = DeploymentId::new(&"1".repeat(32)).unwrap();
    assert_eq!(
        render_deployment_event(&DeploymentEvent::FailurePersisted {
            deployment_id,
            code: DeploymentFailureCode::HealthCheck,
        }),
        format!("deployment {}: state changed to Failed; failure persisted (health_check_failed)", "1".repeat(32))
    );
    let runtime_id = RuntimeInstanceId::new(&"2".repeat(32)).unwrap();
    assert_eq!(
        render_deployment_event(&DeploymentEvent::RetirementWarning {
            runtime_id,
            warning: RetirementWarning::PersistenceFailed,
        }),
        format!("warning: previous runtime {} was retired but could not be marked removed", "2".repeat(32))
    );
}

#[test]
fn stable_progress_prints_requests_and_warnings_only_unless_verbose() {
    let requested = DeploymentEvent::DeploymentRequested {
        application_name: ApplicationName::new("site").unwrap(),
    };
    assert_eq!(
        render_stable_event(&requested, false, Some(("image", "r@sha256:x"))),
        Some("Deploying site...".to_owned())
    );
    assert_eq!(
        render_stable_event(&requested, true, Some(("image", "r@sha256:x"))),
        Some("[verbose] deployment input: application site, image r@sha256:x".to_owned())
    );
    assert_eq!(render_stable_event(&requested, false, None), None);
    let step = DeploymentEvent::StepCompleted { step: DeploymentStep::PullImage };
    assert_eq!(render_stable_event(&step, false, None), None);
    assert_eq!(render_stable_event(&step, true, None), Some("pull image: completed".to_owned()));
}

#[test]
fn animated_progress_spins_the_current_step_and_clears_it() {
    let mut state = AnimationState::new();
    let requested = AnimationInput::Event(DeploymentEvent::DeploymentRequested {
        application_name: ApplicationName::new("another-site").unwrap(),
    });
    assert_eq!(state.advance(&requested, true), "Deploying another-site...\n");
    let started = AnimationInput::Event(DeploymentEvent::StepStarted { step: DeploymentStep::PullImage });
    assert_eq!(state.advance(&started, true), "");
    assert_eq!(state.advance(&AnimationInput::Tick, true), "\r- pull image...");
    assert_eq!(state.advance(&AnimationInput::Tick, true), "\r\\ pull image...");
    let completed = AnimationInput::Event(DeploymentEvent::StepCompleted { step: DeploymentStep::PullImage });
    assert_eq!(state.advance(&completed, true), "\r\x1b[2K");
    assert_eq!(state.advance(&AnimationInput::Tick, true), "");
    assert_eq!(state.advance(&AnimationInput::Disconnected, true), "");
}

#[test]
fn animated_tty_progress_emits_lifecycle_text_frames_and_clear_bytes() {
    let mut state = AnimationState::new();
    let mut output = String::new();
    let inputs = [
        AnimationInput::Event(DeploymentEvent::DeploymentRequested {
            application_name: ApplicationName::new("another-site").unwrap(),
        }),
        AnimationInput::Event(DeploymentEvent::StepStarted { step: DeploymentStep::PullImage }),
        AnimationInput::Tick,
        AnimationInput::Tick,
        AnimationInput::Tick,
        AnimationInput::Event(DeploymentEvent::StepCompleted { step: DeploymentStep::PullImage }),
        AnimationInput::Disconnected,
    ];
    for input in &inputs {
        output.push_str(&state.advance(input, true));
    }

    assert!(output.contains("Deploying another-site..."), "unexpected TTY output: {output:?}");
    assert!(
        output.matches("pull image...").count() >= 2,
        "expected at least two spinner frames: {output:?}"
    );
    assert!(output.contains("\r\x1b[2K"), "expected final clear-line control bytes: {output:?}");
}
