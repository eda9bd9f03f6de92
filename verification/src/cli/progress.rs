//! Deployment progress: the stable text vocabulary of deployment events, the line
//! each event prints when progress is not animated, and the animated spinner as a
//! state machine that turns each received event or tick into the bytes to write.

use vstd::prelude::*;

use crate::cli::output::{deployment_status_label, deployment_status_text};
use crate::control::outcome::{DeploymentEvent, DeploymentStep, RetirementWarning};
use crate::domain::deployment::failure_code_text;
use crate::text::{push_char, push_str};

verus! {

pub open spec fn step_label(step: DeploymentStep) -> Seq<char> {
    match step {
        DeploymentStep::ResolveBranch => "resolve branch"@,
        DeploymentStep::ResolveImageDigest => "resolve image digest"@,
        DeploymentStep::PullImage => "pull image"@,
        DeploymentStep::LoadSpecification => "load application specification"@,
        DeploymentStep::CreateDeployment => "create deployment"@,
        DeploymentStep::ReservePort => "reserve runtime port"@,
        DeploymentStep::CreateUnit => "create candidate unit"@,
        DeploymentStep::ReloadSystemd => "reload systemd user manager"@,
        DeploymentStep::StartContainer => "start candidate container"@,
        DeploymentStep::ResolveContainer => "resolve candidate container"@,
        DeploymentStep::ObserveContainer => "observe candidate container"@,
        DeploymentStep::RegisterCandidate => "register candidate runtime"@,
        DeploymentStep::InternalHealthCheck => "internal health check"@,
        DeploymentStep::ApplyPublicRoute => "apply public route"@,
        DeploymentStep::ExternalHealthCheck => "external health check"@,
        DeploymentStep::PromoteCandidate => "health check and promotion"@,
        DeploymentStep::CleanupCandidate => "clean up candidate"@,
        DeploymentStep::RetirePreviousRuntime => "retire previous runtime"@,
    }
}

pub fn deployment_step_label(step: DeploymentStep) -> (r: &'static str)
    ensures
        r@ == step_label(step),
{
    match step {
        DeploymentStep::ResolveBranch => "resolve branch",
        DeploymentStep::ResolveImageDigest => "resolve image digest",
        DeploymentStep::PullImage => "pull image",
        DeploymentStep::LoadSpecification => "load application specification",
        DeploymentStep::CreateDeployment => "create deployment",
        DeploymentStep::ReservePort => "reserve runtime port",
        DeploymentStep::CreateUnit => "create candidate unit",
        DeploymentStep::ReloadSystemd => "reload systemd user manager",
        DeploymentStep::StartContainer => "start candidate container",
        DeploymentStep::ResolveContainer => "resolve candidate container",
        DeploymentStep::ObserveContainer => "observe candidate container",
        DeploymentStep::RegisterCandidate => "register candidate runtime",
        DeploymentStep::InternalHealthCheck => "internal health check",
        DeploymentStep::ApplyPublicRoute => "apply public route",
        DeploymentStep::ExternalHealthCheck => "external health check",
        DeploymentStep::PromoteCandidate => "health check and promotion",
        DeploymentStep::CleanupCandidate => "clean up candidate",
        DeploymentStep::RetirePreviousRuntime => "retire previous runtime",
    }
}

/// The text of every event but a deployment request, which is rendered separately.
pub open spec fn event_line(event: DeploymentEvent) -> Seq<char> {
    match event {
        DeploymentEvent::DeploymentRequested { .. } => Seq::empty(),
        DeploymentEvent::StepStarted { step } => step_label(step) + ": started"@,
        DeploymentEvent::StepCompleted { step } => step_label(step) + ": completed"@,
        DeploymentEvent::StateChanged { deployment_id, status } => "deployment "@ + deployment_id@
            + ": state changed to "@ + deployment_status_text(status),
        DeploymentEvent::FailurePersisted { deployment_id, code } => "deployment "@ + deployment_id@
            + ": state changed to Failed; failure persisted ("@ + failure_code_text(code) + ")"@,
        DeploymentEvent::RetirementWarning { runtime_id, warning } => match warning {
            RetirementWarning::UnitRetirementFailed { diagnostic } => "warning: previous runtime "@
                + runtime_id@ + " could not be retired: "@ + diagnostic@,
            RetirementWarning::ContainerRemovalUnproven { diagnostic } =>
                "warning: previous runtime "@ + runtime_id@
                + " unit was retired but its container removal could not be proven: "@
                + diagnostic@,
            RetirementWarning::PersistenceFailed => "warning: previous runtime "@ + runtime_id@
                + " was retired but could not be marked removed"@,
        },
    }
}

/// Renders an event with the stable text vocabulary.
pub fn render_deployment_event(event: &DeploymentEvent) -> (r: String)
    requires
        !(*event is DeploymentRequested),
    ensures
        r@ == event_line(*event),
{
    match event {
        DeploymentEvent::DeploymentRequested { .. } => String::new(),
        DeploymentEvent::StepStarted { step } => {
            let mut out = deployment_step_label(*step).to_owned();
            push_str(&mut out, ": started");
            out
        },
        DeploymentEvent::StepCompleted { step } => {
            let mut out = deployment_step_label(*step).to_owned();
            push_str(&mut out, ": completed");
            out
        },
        DeploymentEvent::StateChanged { deployment_id, status } => {
            let mut out = "deployment ".to_owned();
            push_str(&mut out, deployment_id.as_str());
            push_str(&mut out, ": state changed to ");
            push_str(&mut out, deployment_status_label(*status));
            out
        },
        DeploymentEvent::FailurePersisted { deployment_id, code } => {
            let mut out = "deployment ".to_owned();
            push_str(&mut out, deployment_id.as_str());
            push_str(&mut out, ": state changed to Failed; failure persisted (");
            push_str(&mut out, code.as_str());
            push_str(&mut out, ")");
            out
        },
        DeploymentEvent::RetirementWarning { runtime_id, warning } => {
            let mut out = "warning: previous runtime ".to_owned();
            push_str(&mut out, runtime_id.as_str());
            match warning {
                RetirementWarning::UnitRetirementFailed { diagnostic } => {
                    push_str(&mut out, " could not be retired: ");
                    push_str(&mut out, diagnostic.as_str());
                },
                RetirementWarning::ContainerRemovalUnproven { diagnostic } => {
                    push_str(
                        &mut out,
                        " unit was retired but its container removal could not be proven: ",
                    );
                    push_str(&mut out, diagnostic.as_str());
                },
                RetirementWarning::PersistenceFailed => {
                    push_str(&mut out, " was retired but could not be marked removed");
                },
            }
            out
        },
    }
}

/// The stderr line one event prints when progress is not animated: the request
/// announcement (detailed in verbose mode; a rollback announces itself only in
/// verbose mode), every other event in verbose mode, and retirement warnings always.
pub open spec fn stable_event_line(
    event: DeploymentEvent,
    verbose: bool,
    requested_input: Option<(Seq<char>, Seq<char>)>,
) -> Option<Seq<char>> {
    match event {
        DeploymentEvent::DeploymentRequested { application_name } => match requested_input {
            Some((kind, input)) => if verbose {
                Some(
                    "[verbose] deployment input: application "@ + application_name@ + ", "@ + kind
                        + " "@ + input,
                )
            } else {
                Some("Deploying "@ + application_name@ + "..."@)
            },
            None => if verbose {
                Some("[verbose] rolling back application "@ + application_name@)
            } else {
                None
            },
        },
        _ => if verbose || event is RetirementWarning {
            Some(event_line(event))
        } else {
            None
        },
    }
}

pub open spec fn input_view(requested_input: Option<(&str, &str)>) -> Option<(Seq<char>, Seq<char>)> {
    match requested_input {
        Some((kind, input)) => Some((kind@, input@)),
        None => None,
    }
}

/// The line, if any, that an event writes to stderr in stable (non-animated) mode.
pub fn render_stable_event(
    event: &DeploymentEvent,
    verbose: bool,
    requested_input: Option<(&str, &str)>,
) -> (r: Option<String>)
    ensures
        match (r, stable_event_line(*event, verbose, input_view(requested_input))) {
            (Some(line), Some(expected)) => line@ == expected,
            (None, None) => true,
            _ => false,
        },
{
    if let DeploymentEvent::DeploymentRequested { application_name } = event {
        return match requested_input {
            Some((kind, input)) => {
                if verbose {
                    let mut out = "[verbose] deployment input: application ".to_owned();
                    push_str(&mut out, application_name.as_str());
                    push_str(&mut out, ", ");
                    push_str(&mut out, kind);
                    push_str(&mut out, " ");
                    push_str(&mut out, input);
                    Some(out)
                } else {
                    let mut out = "Deploying ".to_owned();
                    push_str(&mut out, application_name.as_str());
                    push_str(&mut out, "...");
                    Some(out)
                }
            },
            None => {
                if verbose {
                    let mut out = "[verbose] rolling back application ".to_owned();
                    push_str(&mut out, application_name.as_str());
                    Some(out)
                } else {
                    None
                }
            },
        };
    }
    if verbose || matches!(event, DeploymentEvent::RetirementWarning { .. }) {
        Some(render_deployment_event(event))
    } else {
        None
    }
}

/// What the animated renderer receives: an event, a tick after a quiet interval,
/// or the end of the event stream.
#[derive(Clone, Debug)]
pub enum AnimationInput {
    Event(DeploymentEvent),
    Tick,
    Disconnected,
}

/// The spinner's state: the next frame, the step in progress, and whether a
/// spinner line is on screen.
#[derive(Clone, Copy, Debug)]
pub struct AnimationState {
    pub frame: usize,
    pub current_step: Option<DeploymentStep>,
    pub visible: bool,
}

/// The four spinner frames, in order.
pub open spec fn spinner_frame(frame: int) -> char {
    if frame == 0 {
        '-'
    } else if frame == 1 {
        '\\'
    } else if frame == 2 {
        '|'
    } else {
        '/'
    }
}

/// Bytes erasing a visible spinner line.
pub open spec fn clear_text(visible: bool) -> Seq<char> {
    if visible {
        "\r\x1b[2K"@
    } else {
        Seq::empty()
    }
}

pub open spec fn is_current(state: AnimationState, step: DeploymentStep) -> bool {
    state.current_step == Some(step)
}

/// The state after one input.
pub open spec fn animation_next(state: AnimationState, input: AnimationInput) -> AnimationState {
    match input {
        AnimationInput::Event(event) => match event {
            DeploymentEvent::StepStarted { step } => AnimationState {
                current_step: Some(step),
                visible: false,
                ..state
            },
            DeploymentEvent::StepCompleted { step } => if is_current(state, step) {
                AnimationState { current_step: None, visible: false, ..state }
            } else {
                state
            },
            DeploymentEvent::RetirementWarning { .. } => AnimationState { visible: false, ..state },
            _ => state,
        },
        AnimationInput::Tick => match state.current_step {
            Some(_) => AnimationState { frame: ((state.frame + 1) % 4) as usize, visible: true, ..state },
            None => state,
        },
        AnimationInput::Disconnected => AnimationState { visible: false, ..state },
    }
}

/// The bytes one input writes.
pub open spec fn animation_output(state: AnimationState, input: AnimationInput, show_request: bool) -> Seq<
    char,
> {
    match input {
        AnimationInput::Event(event) => match event {
            DeploymentEvent::DeploymentRequested { application_name } => if show_request {
                "Deploying "@ + application_name@ + "...\n"@
            } else {
                Seq::empty()
            },
            DeploymentEvent::StepStarted { .. } => clear_text(state.visible),
            DeploymentEvent::StepCompleted { step } => if is_current(state, step) {
                clear_text(state.visible)
            } else {
                Seq::empty()
            },
            DeploymentEvent::RetirementWarning { .. } => clear_text(state.visible) + event_line(event)
                + "\n"@,
            _ => Seq::empty(),
        },
        AnimationInput::Tick => match state.current_step {
            Some(step) => "\r"@ + seq![spinner_frame(state.frame as int)] + " "@ + step_label(step)
                + "..."@,
            None => Seq::empty(),
        },
        AnimationInput::Disconnected => clear_text(state.visible),
    }
}

impl AnimationState {
    /// Nothing shown, no step in progress, the first frame next.
    pub fn new() -> (r: Self)
        ensures
            r == (AnimationState { frame: 0, current_step: None, visible: false }),
    {
        AnimationState { frame: 0, current_step: None, visible: false }
    }

    fn clear(&mut self, out: &mut String)
        ensures
            final(out)@ == old(out)@ + clear_text(old(self).visible),
            *final(self) == (AnimationState { visible: false, ..*old(self) }),
    {
        if self.visible {
            push_str(out, "\r\x1b[2K");
            self.visible = false;
        }
    }

    /// Applies one input and returns the bytes to write; the renderer stops after
    /// `Disconnected`.
    pub fn advance(&mut self, input: &AnimationInput, show_request: bool) -> (r: String)
        requires
            old(self).frame < 4,
        ensures
            final(self).frame < 4,
            *final(self) == animation_next(*old(self), *input),
            r@ == animation_output(*old(self), *input, show_request),
    {
        let mut out = String::new();
        match input {
            AnimationInput::Event(event) => match event {
                DeploymentEvent::DeploymentRequested { application_name } => {
                    if show_request {
                        push_str(&mut out, "Deploying ");
                        push_str(&mut out, application_name.as_str());
                        push_str(&mut out, "...\n");
                    }
                },
                DeploymentEvent::StepStarted { step } => {
                    self.clear(&mut out);
                    self.current_step = Some(*step);
                },
                DeploymentEvent::StepCompleted { step } => {
                    let current = match self.current_step {
                        Some(current) => current == *step,
                        None => false,
                    };
                    if current {
                        self.clear(&mut out);
                        self.current_step = None;
                    }
                },
                DeploymentEvent::RetirementWarning { .. } => {
                    self.clear(&mut out);
                    let line = render_deployment_event(event);
                    push_str(&mut out, line.as_str());
                    push_str(&mut out, "\n");
                },
                _ => {},
            },
            AnimationInput::Tick => {
                if let Some(step) = self.current_step {
                    push_str(&mut out, "\r");
                    let frame = match self.frame {
                        0 => '-',
                        1 => '\\',
                        2 => '|',
                        _ => '/',
                    };
                    push_char(&mut out, frame);
                    push_str(&mut out, " ");
                    push_str(&mut out, deployment_step_label(step));
                    push_str(&mut out, "...");
                    self.frame = (self.frame + 1) % 4;
                    self.visible = true;
                }
            },
            AnimationInput::Disconnected => {
                self.clear(&mut out);
            },
        }
        proof {
            reveal_strlit("\r");
        }
        out
    }
}

} // verus!
