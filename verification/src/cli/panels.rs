//! The text of the terminal interface's detail panels. Each piece of a line
//! carries a tone that the terminal adapter maps to a colour, so what a panel
//! says, and how it is emphasised, is decided here.

use vstd::prelude::*;

use crate::cli::output::{
    deployment_status_label, deployment_status_text, deployment_type_label, deployment_type_text,
    desired_runtime_state_label, desired_state_label, observed_runtime_state_label,
    observed_state_label,
};
use crate::cli::session::{
    busy, detail_outcome, detail_runtime_shown, entry_names, log_for_detail, opt_view,
    system_detail_outcome, system_names, Focus, QueryState, Session,
};
use crate::cli::tui::{
    confirmation, deploy_form_value, position_of, render_offset, strings_view_of, DeployForm,
    DeploySource, DeploymentLog, DeploymentLogState, Form, PendingAction, Tab,
};
use crate::control::outcome::{ApplicationCatalogEntry, RuntimeObservation, SystemDetails};
use crate::domain::application::DesiredRuntimeState;
use crate::domain::deployment::{lifecycle_status, DeploymentHistory, DeploymentStatus};
use crate::domain::runtime::{IpAddress, ObservedRuntimeState, SocketAddress};
use crate::domain::system::System;
use crate::text::{chars_of, decimal, push_char, push_decimal, push_str};

verus! {

/// How a piece of panel text is emphasised.
#[derive(Clone, Copy, Debug, PartialEq, Eq, Structural)]
pub enum Tone {
    Plain,
    Muted,
    Emphasis,
    Bright,
    Good,
    Quiet,
    Warning,
    Bad,
    Accent,
    KeyBadge,
    WarningBadge,
    ErrorBadge,
    GoodBadge,
    MutedBadge,
    Field,
}

/// One piece of a panel line.
#[derive(Clone, Debug)]
pub struct Segment {
    pub text: String,
    pub tone: Tone,
}

/// One line of a panel.
#[derive(Clone, Debug)]
pub struct PanelLine {
    pub segments: Vec<Segment>,
}

pub open spec fn segment_view(s: Segment) -> (Seq<char>, Tone) {
    (s.text@, s.tone)
}

pub open spec fn line_view(l: PanelLine) -> Seq<(Seq<char>, Tone)> {
    Seq::new(l.segments@.len(), |i: int| segment_view(l.segments@[i]))
}

pub open spec fn lines_view(v: Seq<PanelLine>) -> Seq<Seq<(Seq<char>, Tone)>> {
    Seq::new(v.len(), |i: int| line_view(v[i]))
}

/// A field label: its name and a colon.
pub open spec fn label(name: Seq<char>) -> (Seq<char>, Tone) {
    (name + ": "@, Tone::Muted)
}

/// An absent value.
pub open spec fn absent() -> (Seq<char>, Tone) {
    ("None"@, Tone::Muted)
}

pub open spec fn optional_value(value: Option<Seq<char>>) -> (Seq<char>, Tone) {
    match value {
        Some(v) => (v, Tone::Plain),
        None => absent(),
    }
}

pub open spec fn desired_tone(state: DesiredRuntimeState) -> Tone {
    match state {
        DesiredRuntimeState::Running => Tone::Good,
        DesiredRuntimeState::Stopped => Tone::Quiet,
    }
}

pub open spec fn observed_tone(state: ObservedRuntimeState) -> Tone {
    match state {
        ObservedRuntimeState::Running => Tone::Good,
        ObservedRuntimeState::Stopped => Tone::Quiet,
        ObservedRuntimeState::Missing | ObservedRuntimeState::Failed => Tone::Bad,
        _ => Tone::Warning,
    }
}

pub open spec fn status_tone(status: DeploymentStatus) -> Tone {
    match status {
        DeploymentStatus::Succeeded => Tone::Good,
        DeploymentStatus::Failed => Tone::Bad,
        _ => Tone::Warning,
    }
}

pub fn desired_state_tone(state: DesiredRuntimeState) -> (r: Tone)
    ensures
        r == desired_tone(state),
{
    match state {
        DesiredRuntimeState::Running => Tone::Good,
        DesiredRuntimeState::Stopped => Tone::Quiet,
    }
}

pub fn observed_state_tone(state: &ObservedRuntimeState) -> (r: Tone)
    ensures
        r == observed_tone(*state),
{
    match state {
        ObservedRuntimeState::Running => Tone::Good,
        ObservedRuntimeState::Stopped => Tone::Quiet,
        ObservedRuntimeState::Missing | ObservedRuntimeState::Failed => Tone::Bad,
        _ => Tone::Warning,
    }
}

pub fn deployment_status_tone(status: DeploymentStatus) -> (r: Tone)
    ensures
        r == status_tone(status),
{
    match status {
        DeploymentStatus::Succeeded => Tone::Good,
        DeploymentStatus::Failed => Tone::Bad,
        _ => Tone::Warning,
    }
}

pub open spec fn hex_digit(n: nat) -> char {
    if n < 10 {
        (('0' as nat) + n) as char
    } else {
        (('a' as nat) + n - 10) as char
    }
}

/// A 16-bit group in lowercase hexadecimal without leading zeros.
pub open spec fn hex_group(n: nat) -> Seq<char>
    decreases n,
{
    if n < 16 {
        seq![hex_digit(n)]
    } else {
        hex_group(n / 16).push(hex_digit(n % 16))
    }
}

/// An endpoint as `a.b.c.d:port`, or `[h:h:h:h:h:h:h:h]:port` with every IPv6
/// group written out.
pub open spec fn endpoint_text(endpoint: SocketAddress) -> Seq<char> {
    match endpoint.ip {
        IpAddress::V4(a, b, c, d) => decimal(a as nat) + "."@ + decimal(b as nat) + "."@ + decimal(
            c as nat,
        ) + "."@ + decimal(d as nat) + ":"@ + decimal(endpoint.port as nat),
        IpAddress::V6(a, b, c, d, e, f, g, h) => "["@ + hex_group(a as nat) + ":"@ + hex_group(
            b as nat,
        ) + ":"@ + hex_group(c as nat) + ":"@ + hex_group(d as nat) + ":"@ + hex_group(e as nat)
            + ":"@ + hex_group(f as nat) + ":"@ + hex_group(g as nat) + ":"@ + hex_group(h as nat)
            + "]:"@ + decimal(endpoint.port as nat),
    }
}

fn push_hex_group(out: &mut String, n: u16)
    ensures
        final(out)@ == old(out)@ + hex_group(n as nat),
    decreases n,
{
    if n >= 16 {
        push_hex_group(out, n / 16);
    }
    let digit = (n % 16) as u8;
    let c: char = if digit < 10 {
        ('0' as u8 + digit) as char
    } else {
        ('a' as u8 + digit - 10) as char
    };
    crate::text::push_char(out, c);
    proof {
        if n >= 16 {
            assert(hex_group(n as nat) == hex_group((n / 16) as nat).push(hex_digit((n % 16) as nat)));
        }
    }
}

pub fn endpoint_string(endpoint: SocketAddress) -> (r: String)
    ensures
        r@ == endpoint_text(endpoint),
{
    let mut out = String::new();
    match endpoint.ip {
        IpAddress::V4(a, b, c, d) => {
            push_decimal(&mut out, a as u64);
            push_str(&mut out, ".");
            push_decimal(&mut out, b as u64);
            push_str(&mut out, ".");
            push_decimal(&mut out, c as u64);
            push_str(&mut out, ".");
            push_decimal(&mut out, d as u64);
            push_str(&mut out, ":");
        },
        IpAddress::V6(a, b, c, d, e, f, g, h) => {
            push_str(&mut out, "[");
            push_hex_group(&mut out, a);
            push_str(&mut out, ":");
            push_hex_group(&mut out, b);
            push_str(&mut out, ":");
            push_hex_group(&mut out, c);
            push_str(&mut out, ":");
            push_hex_group(&mut out, d);
            push_str(&mut out, ":");
            push_hex_group(&mut out, e);
            push_str(&mut out, ":");
            push_hex_group(&mut out, f);
            push_str(&mut out, ":");
            push_hex_group(&mut out, g);
            push_str(&mut out, ":");
            push_hex_group(&mut out, h);
            push_str(&mut out, "]:");
        },
    }
    push_decimal(&mut out, endpoint.port as u64);
    out
}

fn piece(text: String, tone: Tone) -> (r: Segment)
    ensures
        segment_view(r) == (text@, tone),
{
    Segment { text, tone }
}

fn label_piece(name: &str) -> (r: Segment)
    ensures
        segment_view(r) == label(name@),
{
    let mut text = name.to_owned();
    push_str(&mut text, ": ");
    Segment { text, tone: Tone::Muted }
}

fn optional_piece(value: Option<&str>) -> (r: Segment)
    ensures
        segment_view(r) == optional_value(
            match value {
                Some(v) => Some(v@),
                None => None,
            },
        ),
{
    match value {
        Some(v) => Segment { text: v.to_owned(), tone: Tone::Plain },
        None => Segment { text: "None".to_owned(), tone: Tone::Muted },
    }
}

fn line_of(segments: Vec<Segment>) -> (r: PanelLine)
    ensures
        r.segments == segments,
{
    PanelLine { segments }
}

fn one_piece_line(a: Segment) -> (r: PanelLine)
    ensures
        line_view(r) == seq![segment_view(a)],
{
    let mut segments: Vec<Segment> = Vec::new();
    segments.push(a);
    let r = line_of(segments);
    assert(line_view(r) =~= seq![segment_view(a)]);
    r
}

fn two_piece_line(a: Segment, b: Segment) -> (r: PanelLine)
    ensures
        line_view(r) == seq![segment_view(a), segment_view(b)],
{
    let mut segments: Vec<Segment> = Vec::new();
    segments.push(a);
    segments.push(b);
    let r = line_of(segments);
    assert(line_view(r) =~= seq![segment_view(a), segment_view(b)]);
    r
}

fn plain_line(text: &str) -> (r: PanelLine)
    ensures
        line_view(r) == seq![(text@, Tone::Plain)],
{
    one_piece_line(piece(text.to_owned(), Tone::Plain))
}

/// `v`'s lines, as pushed so far, are `expected`.
pub open spec fn shows(v: Seq<PanelLine>, expected: Seq<Seq<(Seq<char>, Tone)>>) -> bool {
    lines_view(v) == expected
}

fn push_line(lines: &mut Vec<PanelLine>, line: PanelLine)
    ensures
        lines_view(final(lines)@) == lines_view(old(lines)@).push(line_view(line)),
{
    lines.push(line);
    assert(lines_view(lines@) =~= lines_view(old(lines)@).push(line_view(line)));
}

pub open spec fn opt_str_view(o: Option<String>) -> Option<Seq<char>> {
    match o {
        Some(s) => Some(s@),
        None => None,
    }
}

/// The persisted facts of a catalog entry; runtime facts are not among them.
pub open spec fn application_details_view(entry: ApplicationCatalogEntry) -> Seq<
    Seq<(Seq<char>, Tone)>,
> {
    seq![
        seq![label("Application"@), (entry.summary.name@, Tone::Emphasis)],
        seq![label("Repository"@), optional_value(opt_str_view(entry.summary.repository))],
        seq![label("Default branch"@), optional_value(opt_str_view(entry.summary.default_branch))],
        seq![
            label("Desired runtime state"@),
            (
                desired_state_label(entry.summary.desired_runtime_state),
                desired_tone(entry.summary.desired_runtime_state),
            ),
        ],
        seq![
            label("Has successful deployment"@),
            if entry.deployed {
                ("yes"@, Tone::Good)
            } else {
                ("no"@, Tone::Muted)
            },
        ],
        seq![
            label("Active deployment ID"@),
            optional_value(
                match entry.summary.active_deployment_id {
                    Some(id) => Some(id@),
                    None => None,
                },
            ),
        ],
    ]
}

fn optional_string(value: &Option<String>) -> (r: Option<&str>)
    ensures
        match r {
            Some(v) => Some(v@),
            None => None,
        } == opt_str_view(*value),
{
    match value {
        Some(v) => Some(v.as_str()),
        None => None,
    }
}

pub fn application_details_lines(entry: &ApplicationCatalogEntry) -> (r: Vec<PanelLine>)
    ensures
        lines_view(r@) == application_details_view(*entry),
{
    let summary = &entry.summary;
    let mut lines: Vec<PanelLine> = Vec::new();
    push_line(
        &mut lines,
        two_piece_line(
            label_piece("Application"),
            piece(summary.name.as_str().to_owned(), Tone::Emphasis),
        ),
    );
    push_line(
        &mut lines,
        two_piece_line(label_piece("Repository"), optional_piece(optional_string(&summary.repository))),
    );
    push_line(
        &mut lines,
        two_piece_line(
            label_piece("Default branch"),
            optional_piece(optional_string(&summary.default_branch)),
        ),
    );
    push_line(
        &mut lines,
        two_piece_line(
            label_piece("Desired runtime state"),
            piece(
                desired_runtime_state_label(summary.desired_runtime_state).to_owned(),
                desired_state_tone(summary.desired_runtime_state),
            ),
        ),
    );
    let deployed = if entry.deployed {
        piece("yes".to_owned(), Tone::Good)
    } else {
        piece("no".to_owned(), Tone::Muted)
    };
    push_line(&mut lines, two_piece_line(label_piece("Has successful deployment"), deployed));
    let active = match &summary.active_deployment_id {
        Some(id) => Some(id.as_str()),
        None => None,
    };
    push_line(&mut lines, two_piece_line(label_piece("Active deployment ID"), optional_piece(active)));
    let ghost expected = application_details_view(*entry);
    assert(lines_view(lines@).len() == 6);
    assert(lines_view(lines@)[0] == expected[0]);
    assert(lines_view(lines@)[1] == expected[1]);
    assert(lines_view(lines@)[2] == expected[2]);
    assert(lines_view(lines@)[3] == expected[3]);
    assert(lines_view(lines@)[4] == expected[4]);
    assert(lines_view(lines@)[5] == expected[5]);
    assert(lines_view(lines@) =~= application_details_view(*entry));
    lines
}

/// The runtime panel for each state of its query.
pub open spec fn runtime_view(state: QueryState<RuntimeObservation>) -> Seq<Seq<(Seq<char>, Tone)>> {
    match state {
        QueryState::Idle => seq![
            seq![("The runtime status was not requested yet. Press r to load it."@, Tone::Plain)],
        ],
        QueryState::Loading => seq![seq![("Loading runtime status..."@, Tone::Plain)]],
        QueryState::Failed(error) => seq![
            seq![("Could not load runtime status:"@, Tone::Plain)],
            seq![(error@, Tone::Bad)],
        ],
        QueryState::Ready(observation) => seq![
            seq![
                label("Desired runtime state"@),
                (
                    desired_state_label(observation.desired_runtime_state),
                    desired_tone(observation.desired_runtime_state),
                ),
            ],
            seq![
                label("Observed runtime state"@),
                (
                    observed_state_label(observation.observed_runtime_state),
                    observed_tone(observation.observed_runtime_state),
                ),
            ],
            seq![label("Runtime ID"@), (observation.runtime_id@, Tone::Plain)],
            seq![label("Container ID"@), (observation.container_id@, Tone::Plain)],
            seq![
                label("Observed endpoint"@),
                optional_value(
                    match observation.observed_endpoint {
                        Some(endpoint) => Some(endpoint_text(endpoint)),
                        None => None,
                    },
                ),
            ],
        ],
    }
}

pub fn runtime_lines(state: &QueryState<RuntimeObservation>) -> (r: Vec<PanelLine>)
    ensures
        lines_view(r@) == runtime_view(*state),
{
    let mut lines: Vec<PanelLine> = Vec::new();
    match state {
        QueryState::Idle => push_line(
            &mut lines,
            plain_line("The runtime status was not requested yet. Press r to load it."),
        ),
        QueryState::Loading => push_line(&mut lines, plain_line("Loading runtime status...")),
        QueryState::Failed(error) => {
            push_line(&mut lines, plain_line("Could not load runtime status:"));
            push_line(&mut lines, one_piece_line(piece(error.clone(), Tone::Bad)));
        },
        QueryState::Ready(observation) => {
            push_line(
                &mut lines,
                two_piece_line(
                    label_piece("Desired runtime state"),
                    piece(
                        desired_runtime_state_label(observation.desired_runtime_state).to_owned(),
                        desired_state_tone(observation.desired_runtime_state),
                    ),
                ),
            );
            push_line(
                &mut lines,
                two_piece_line(
                    label_piece("Observed runtime state"),
                    piece(
                        observed_runtime_state_label(&observation.observed_runtime_state),
                        observed_state_tone(&observation.observed_runtime_state),
                    ),
                ),
            );
            push_line(
                &mut lines,
                two_piece_line(
                    label_piece("Runtime ID"),
                    piece(observation.runtime_id.as_str().to_owned(), Tone::Plain),
                ),
            );
            push_line(
                &mut lines,
                two_piece_line(
                    label_piece("Container ID"),
                    piece(observation.container_id.as_str().to_owned(), Tone::Plain),
                ),
            );
            let endpoint = match observation.observed_endpoint {
                Some(endpoint) => piece(endpoint_string(endpoint), Tone::Plain),
                None => optional_piece(None),
            };
            push_line(&mut lines, two_piece_line(label_piece("Observed endpoint"), endpoint));
            let ghost expected = runtime_view(*state);
            assert(lines_view(lines@).len() == 5);
            assert(lines_view(lines@)[0] == expected[0]);
            assert(lines_view(lines@)[1] == expected[1]);
            assert(lines_view(lines@)[2] == expected[2]);
            assert(lines_view(lines@)[3] == expected[3]);
            assert(lines_view(lines@)[4] == expected[4]);
        },
    }
    assert(lines_view(lines@) =~= runtime_view(*state));
    lines
}

/// One row of the deployment history: id, type, status, artifact, and whether it is
/// the active deployment.
pub open spec fn history_row(history: DeploymentHistory) -> Seq<(Seq<char>, Tone)> {
    let status = lifecycle_status(history.deployment.lifecycle);
    let row = seq![
        (history.deployment.id@, Tone::Muted),
        (" | "@, Tone::Plain),
        (deployment_type_text(history.deployment.deployment_type), Tone::Plain),
        (" | "@, Tone::Plain),
        (deployment_status_text(status), status_tone(status)),
        (" | "@, Tone::Plain),
        (history.release.artifact.reference_view(), Tone::Plain),
    ];
    if history.is_active {
        row.push((" | active"@, Tone::Good))
    } else {
        row
    }
}

/// The deployment history panel for each state of its query.
pub open spec fn history_view(state: QueryState<Vec<DeploymentHistory>>) -> Seq<
    Seq<(Seq<char>, Tone)>,
> {
    match state {
        QueryState::Idle => seq![
            seq![("The deployment history was not requested yet. Press r to load it."@, Tone::Plain)],
        ],
        QueryState::Loading => seq![seq![("Loading deployment history..."@, Tone::Plain)]],
        QueryState::Failed(error) => seq![
            seq![("Could not load deployment history:"@, Tone::Plain)],
            seq![(error@, Tone::Bad)],
        ],
        QueryState::Ready(deployments) => if deployments@.len() == 0 {
            seq![seq![("No deployments."@, Tone::Plain)]]
        } else {
            Seq::new(deployments@.len(), |i: int| history_row(deployments@[i]))
        },
    }
}

fn history_line(history: &DeploymentHistory) -> (r: PanelLine)
    ensures
        line_view(r) == history_row(*history),
{
    let status = history.deployment.status();
    let mut segments: Vec<Segment> = Vec::new();
    segments.push(piece(history.deployment.id.as_str().to_owned(), Tone::Muted));
    segments.push(piece(" | ".to_owned(), Tone::Plain));
    segments.push(
        piece(deployment_type_label(history.deployment.deployment_type).to_owned(), Tone::Plain),
    );
    segments.push(piece(" | ".to_owned(), Tone::Plain));
    segments.push(piece(deployment_status_label(status).to_owned(), deployment_status_tone(status)));
    segments.push(piece(" | ".to_owned(), Tone::Plain));
    segments.push(piece(history.release.artifact.reference().to_owned(), Tone::Plain));
    if history.is_active {
        segments.push(piece(" | active".to_owned(), Tone::Good));
    }
    let r = line_of(segments);
    assert(line_view(r) =~= history_row(*history));
    r
}

pub fn deployment_history_lines(state: &QueryState<Vec<DeploymentHistory>>) -> (r: Vec<PanelLine>)
    ensures
        lines_view(r@) == history_view(*state),
{
    let mut lines: Vec<PanelLine> = Vec::new();
    match state {
        QueryState::Idle => push_line(
            &mut lines,
            plain_line("The deployment history was not requested yet. Press r to load it."),
        ),
        QueryState::Loading => push_line(&mut lines, plain_line("Loading deployment history...")),
        QueryState::Failed(error) => {
            push_line(&mut lines, plain_line("Could not load deployment history:"));
            push_line(&mut lines, one_piece_line(piece(error.clone(), Tone::Bad)));
        },
        QueryState::Ready(deployments) => {
            if deployments.len() == 0 {
                push_line(&mut lines, plain_line("No deployments."));
            } else {
                let mut i: usize = 0;
                while i < deployments.len()
                    invariant
                        i <= deployments@.len(),
                        lines_view(lines@) == Seq::new(
                            i as nat,
                            |k: int| history_row(deployments@[k]),
                        ),
                    decreases deployments@.len() - i,
                {
                    push_line(&mut lines, history_line(&deployments[i]));
                    assert(lines_view(lines@) =~= Seq::new(
                        (i + 1) as nat,
                        |k: int| history_row(deployments@[k]),
                    ));
                    i = i + 1;
                }
            }
        },
    }
    assert(lines_view(lines@) =~= history_view(*state));
    lines
}

/// A system's name and description, its member count, and each member's name.
pub open spec fn system_details_view(details: SystemDetails) -> Seq<Seq<(Seq<char>, Tone)>> {
    let heading = seq![
        seq![label("System"@), (details.system.name@, Tone::Emphasis)],
        seq![label("Description"@), optional_value(opt_str_view(details.system.description))],
        seq![label("Applications"@), (decimal(details.applications@.len()), Tone::Plain)],
    ];
    if details.applications@.len() == 0 {
        heading.push(seq![("No applications belong to this system. Press a to add one."@, Tone::Plain)])
    } else {
        heading + Seq::new(
            details.applications@.len(),
            |i: int| seq![("  "@, Tone::Plain), (details.applications@[i].name@, Tone::Bright)],
        )
    }
}

pub fn system_details_lines(details: &SystemDetails) -> (r: Vec<PanelLine>)
    ensures
        lines_view(r@) == system_details_view(*details),
{
    let mut lines: Vec<PanelLine> = Vec::new();
    push_line(
        &mut lines,
        two_piece_line(
            label_piece("System"),
            piece(details.system.name.as_str().to_owned(), Tone::Emphasis),
        ),
    );
    push_line(
        &mut lines,
        two_piece_line(
            label_piece("Description"),
            optional_piece(optional_string(&details.system.description)),
        ),
    );
    let mut count = String::new();
    push_decimal(&mut count, details.applications.len() as u64);
    push_line(&mut lines, two_piece_line(label_piece("Applications"), piece(count, Tone::Plain)));
    let ghost heading = lines_view(lines@);
    if details.applications.len() == 0 {
        push_line(
            &mut lines,
            plain_line("No applications belong to this system. Press a to add one."),
        );
    } else {
        let mut i: usize = 0;
        while i < details.applications.len()
            invariant
                i <= details.applications@.len(),
                lines_view(lines@) == heading + Seq::new(
                    i as nat,
                    |k: int|
                        seq![
                            ("  "@, Tone::Plain),
                            (details.applications@[k].name@, Tone::Bright),
                        ],
                ),
            decreases details.applications@.len() - i,
        {
            push_line(
                &mut lines,
                two_piece_line(
                    piece("  ".to_owned(), Tone::Plain),
                    piece(details.applications[i].name.as_str().to_owned(), Tone::Bright),
                ),
            );
            assert(lines_view(lines@) =~= heading + Seq::new(
                (i + 1) as nat,
                |k: int|
                    seq![("  "@, Tone::Plain), (details.applications@[k].name@, Tone::Bright)],
            ));
            i = i + 1;
        }
    }
    assert(lines_view(lines@) =~= system_details_view(*details));
    lines
}

/// A deployment log's lines, then the failure of a failed deployment.
pub open spec fn log_view(log: DeploymentLog) -> Seq<Seq<(Seq<char>, Tone)>> {
    let recorded = Seq::new(log.lines@.len(), |i: int| seq![(log.lines@[i]@, Tone::Plain)]);
    match log.state {
        DeploymentLogState::Failed(error) => recorded.push(
            seq![("Deployment failed: "@ + error@, Tone::Bad)],
        ),
        _ => recorded,
    }
}

pub fn deployment_log_text(log: &DeploymentLog) -> (r: Vec<PanelLine>)
    ensures
        lines_view(r@) == log_view(*log),
{
    let mut lines: Vec<PanelLine> = Vec::new();
    let mut i: usize = 0;
    while i < log.lines.len()
        invariant
            i <= log.lines@.len(),
            lines_view(lines@) == Seq::new(i as nat, |k: int| seq![(log.lines@[k]@, Tone::Plain)]),
        decreases log.lines@.len() - i,
    {
        push_line(&mut lines, one_piece_line(piece(log.lines[i].clone(), Tone::Plain)));
        assert(lines_view(lines@) =~= Seq::new(
            (i + 1) as nat,
            |k: int| seq![(log.lines@[k]@, Tone::Plain)],
        ));
        i = i + 1;
    }
    if let DeploymentLogState::Failed(error) = &log.state {
        let mut text = "Deployment failed: ".to_owned();
        push_str(&mut text, error.as_str());
        push_line(&mut lines, one_piece_line(piece(text, Tone::Bad)));
    }
    assert(lines_view(lines@) =~= log_view(*log));
    lines
}

/// A key badge and what the key does.
pub open spec fn key_hint_view(key: Seq<char>, description: Seq<char>) -> Seq<(Seq<char>, Tone)> {
    seq![(" "@ + key + " "@, Tone::KeyBadge), (" "@ + description + "  "@, Tone::Plain)]
}

/// The badges of several keys, in order.
pub open spec fn hints_view(hints: Seq<(Seq<char>, Seq<char>)>) -> Seq<(Seq<char>, Tone)>
    decreases hints.len(),
{
    if hints.len() == 0 {
        Seq::empty()
    } else {
        hints_view(hints.drop_last()) + key_hint_view(hints.last().0, hints.last().1)
    }
}

pub open spec fn log_hints() -> Seq<(Seq<char>, Seq<char>)> {
    seq![
        ("Up/Down or j/k"@, "line"@),
        ("PgUp/PgDn"@, "page"@),
        ("Home/End"@, "oldest/newest"@),
        ("Esc"@, "details"@),
        ("q"@, "quit"@),
    ]
}

pub open spec fn action_hints() -> Seq<(Seq<char>, Seq<char>)> {
    seq![
        ("s"@, "start"@),
        ("x"@, "stop"@),
        ("c"@, "reconcile"@),
        ("d"@, "deploy"@),
        ("b"@, "rollback"@),
        ("p"@, "public"@),
        ("i"@, "internal"@),
    ]
}

pub open spec fn detail_exit_hints() -> Seq<(Seq<char>, Seq<char>)> {
    seq![("Esc"@, "catalog"@), ("r"@, "refresh"@), ("q"@, "quit"@)]
}

pub open spec fn navigation_hints() -> Seq<(Seq<char>, Seq<char>)> {
    seq![
        ("1/2/3 or Left/Right"@, "tab"@),
        ("Up/Down or j/k"@, "select"@),
        ("Enter"@, "details"@),
        ("r"@, "refresh"@),
        ("q"@, "quit"@),
    ]
}

/// The keys the footer advertises in each context.
pub open spec fn footer_hints(s: Session) -> Seq<(Seq<char>, Seq<char>)> {
    if s.tab == Tab::Applications && s.focus == Focus::Log {
        log_hints()
    } else if s.tab == Tab::Applications && s.focus == Focus::Details {
        action_hints() + (if log_for_detail(s) {
            seq![("Enter"@, "log"@)]
        } else {
            Seq::empty()
        }) + detail_exit_hints()
    } else if s.tab == Tab::Systems && s.focus == Focus::Listing {
        navigation_hints() + seq![("n"@, "new system"@), ("a"@, "add application"@)]
    } else if s.tab == Tab::Applications && s.focus == Focus::Listing {
        navigation_hints() + seq![("n"@, "import"@)]
    } else {
        navigation_hints()
    }
}

/// The footer: quitting, busy, and error notices take precedence over the keys.
pub open spec fn footer_view(s: Session) -> Seq<(Seq<char>, Tone)> {
    if s.quit_after_completion && busy(s) {
        seq![
            (" quitting "@, Tone::WarningBadge),
            (" Finishing the current refresh before quitting..."@, Tone::Plain),
        ]
    } else if busy(s) {
        seq![
            (" busy "@, Tone::WarningBadge),
            (" Refreshing... a confirmed action will run next; navigation is disabled."@, Tone::Plain),
        ]
    } else if s.error is Some {
        seq![(" error "@, Tone::ErrorBadge), (" "@ + s.error->0@, Tone::Bad)]
    } else {
        hints_view(footer_hints(s))
    }
}

fn push_hints(segments: &mut Vec<Segment>, hints: &Vec<(&str, &str)>)
    ensures
        Seq::new(final(segments)@.len(), |i: int| segment_view(final(segments)@[i])) == Seq::new(
            old(segments)@.len(),
            |i: int| segment_view(old(segments)@[i]),
        ) + hints_view(Seq::new(hints@.len(), |i: int| (hints@[i].0@, hints@[i].1@))),
{
    let ghost start = Seq::new(segments@.len(), |i: int| segment_view(segments@[i]));
    let ghost all = Seq::new(hints@.len(), |i: int| (hints@[i].0@, hints@[i].1@));
    let mut i: usize = 0;
    while i < hints.len()
        invariant
            i <= hints@.len(),
            all == Seq::new(hints@.len(), |k: int| (hints@[k].0@, hints@[k].1@)),
            Seq::new(segments@.len(), |k: int| segment_view(segments@[k])) == start + hints_view(
                all.subrange(0, i as int),
            ),
        decreases hints@.len() - i,
    {
        let (key, description) = hints[i];
        let mut badge = " ".to_owned();
        push_str(&mut badge, key);
        push_str(&mut badge, " ");
        let mut text = " ".to_owned();
        push_str(&mut text, description);
        push_str(&mut text, "  ");
        let ghost before = Seq::new(segments@.len(), |k: int| segment_view(segments@[k]));
        segments.push(Segment { text: badge, tone: Tone::KeyBadge });
        segments.push(Segment { text, tone: Tone::Plain });
        assert(all.subrange(0, i + 1).drop_last() == all.subrange(0, i as int));
        assert(Seq::new(segments@.len(), |k: int| segment_view(segments@[k])) =~= before
            + key_hint_view(key@, description@));
        i = i + 1;
    }
    assert(all.subrange(0, all.len() as int) == all);
}

proof fn lemma_hints_concat(a: Seq<(Seq<char>, Seq<char>)>, b: Seq<(Seq<char>, Seq<char>)>)
    ensures
        hints_view(a + b) == hints_view(a) + hints_view(b),
    decreases b.len(),
{
    if b.len() == 0 {
        assert(a + b == a);
        assert(hints_view(b) == Seq::<(Seq<char>, Tone)>::empty());
        assert(hints_view(a) + hints_view(b) == hints_view(a));
    } else {
        lemma_hints_concat(a, b.drop_last());
        assert((a + b).drop_last() == a + b.drop_last());
        assert((a + b).last() == b.last());
    }
}


pub open spec fn hint_pairs(hints: Seq<(&str, &str)>) -> Seq<(Seq<char>, Seq<char>)> {
    Seq::new(hints.len(), |i: int| (hints[i].0@, hints[i].1@))
}

fn push_pairs(list: &mut Vec<(&'static str, &'static str)>, pairs: &[(&'static str, &'static str)])
    ensures
        hint_pairs(final(list)@) == hint_pairs(old(list)@) + hint_pairs(pairs@),
{
    let ghost start = hint_pairs(list@);
    let mut i: usize = 0;
    while i < pairs.len()
        invariant
            i <= pairs@.len(),
            hint_pairs(list@) == start + hint_pairs(pairs@.subrange(0, i as int)),
        decreases pairs@.len() - i,
    {
        let ghost before = list@;
        list.push(pairs[i]);
        let ghost item = (pairs@[i as int].0@, pairs@[i as int].1@);
        assert(hint_pairs(list@) =~= hint_pairs(before).push(item));
        assert(hint_pairs(pairs@.subrange(0, i + 1)) =~= hint_pairs(pairs@.subrange(0, i as int)).push(
            item,
        ));
        assert(hint_pairs(list@) =~= start + hint_pairs(pairs@.subrange(0, i + 1)));
        i = i + 1;
    }
    assert(pairs@.subrange(0, pairs@.len() as int) == pairs@);
}

fn footer_hint_list(session: &Session) -> (r: Vec<(&'static str, &'static str)>)
    ensures
        hint_pairs(r@) == footer_hints(*session),
{
    let mut list: Vec<(&'static str, &'static str)> = Vec::new();
    let applications = matches!(session.tab, Tab::Applications);
    if applications && matches!(session.focus, Focus::Log) {
        push_pairs(
            &mut list,
            &[
                ("Up/Down or j/k", "line"),
                ("PgUp/PgDn", "page"),
                ("Home/End", "oldest/newest"),
                ("Esc", "details"),
                ("q", "quit"),
            ],
        );
        assert(hint_pairs(list@) =~= log_hints());
    } else if applications && matches!(session.focus, Focus::Details) {
        push_pairs(
            &mut list,
            &[
                ("s", "start"),
                ("x", "stop"),
                ("c", "reconcile"),
                ("d", "deploy"),
                ("b", "rollback"),
                ("p", "public"),
                ("i", "internal"),
            ],
        );
        assert(hint_pairs(list@) =~= action_hints());
        if session.log_is_for_detail() {
            push_pairs(&mut list, &[("Enter", "log")]);
            assert(hint_pairs(list@) =~= action_hints() + seq![("Enter"@, "log"@)]);
        } else {
            assert(hint_pairs(list@) =~= action_hints() + Seq::empty());
        }
        let ghost middle = hint_pairs(list@);
        push_pairs(&mut list, &[("Esc", "catalog"), ("r", "refresh"), ("q", "quit")]);
        assert(hint_pairs(list@) =~= middle + detail_exit_hints());
    } else {
        push_pairs(
            &mut list,
            &[
                ("1/2/3 or Left/Right", "tab"),
                ("Up/Down or j/k", "select"),
                ("Enter", "details"),
                ("r", "refresh"),
                ("q", "quit"),
            ],
        );
        assert(hint_pairs(list@) =~= navigation_hints());
        if matches!(session.tab, Tab::Systems) && matches!(session.focus, Focus::Listing) {
            push_pairs(&mut list, &[("n", "new system"), ("a", "add application")]);
            assert(hint_pairs(list@) =~= navigation_hints() + seq![
                ("n"@, "new system"@),
                ("a"@, "add application"@),
            ]);
        } else if applications && matches!(session.focus, Focus::Listing) {
            push_pairs(&mut list, &[("n", "import")]);
            assert(hint_pairs(list@) =~= navigation_hints() + seq![("n"@, "import"@)]);
        }
    }
    list
}

/// The footer line for the session's state.
pub fn footer_line(session: &Session) -> (r: PanelLine)
    ensures
        line_view(r) == footer_view(*session),
{
    if session.quit_after_completion && session.is_busy() {
        return two_piece_line(
            piece(" quitting ".to_owned(), Tone::WarningBadge),
            piece(" Finishing the current refresh before quitting...".to_owned(), Tone::Plain),
        );
    }
    if session.is_busy() {
        return two_piece_line(
            piece(" busy ".to_owned(), Tone::WarningBadge),
            piece(
                " Refreshing... a confirmed action will run next; navigation is disabled.".to_owned(),
                Tone::Plain,
            ),
        );
    }
    if let Some(error) = &session.error {
        let mut text = " ".to_owned();
        push_str(&mut text, error.as_str());
        return two_piece_line(piece(" error ".to_owned(), Tone::ErrorBadge), piece(text, Tone::Bad));
    }
    let hints = footer_hint_list(session);
    let mut segments: Vec<Segment> = Vec::new();
    push_hints(&mut segments, &hints);
    let r = line_of(segments);
    assert(line_view(r) =~= hints_view(footer_hints(*session)));
    r
}

/// The title of the deployment log panel: with the log focused, its application,
/// state, and visible rows; otherwise how the deployment stands.
pub open spec fn log_title(log: DeploymentLog, focused: bool) -> (Seq<char>, Tone) {
    if focused {
        let offset = render_offset(log);
        let total = log.total_rows as int;
        let start = if offset + 1 < total {
            offset + 1
        } else {
            total
        };
        let end = if offset + log.viewport_rows < total {
            offset + log.viewport_rows
        } else {
            total
        };
        (
            " Deployment log · "@ + log.application_name@ + " · "@ + match log.state {
                DeploymentLogState::Running => "running"@,
                DeploymentLogState::Completed => "completed"@,
                DeploymentLogState::Failed(_) => "failed"@,
            } + " · rows "@ + decimal(start as nat) + "–"@ + decimal(end as nat) + " of "@ + decimal(
                total as nat,
            ) + " "@,
            Tone::Accent,
        )
    } else {
        match log.state {
            DeploymentLogState::Running => (" Deployment progress "@, Tone::Warning),
            DeploymentLogState::Completed => (" Deployment log (completed) "@, Tone::Good),
            DeploymentLogState::Failed(_) => (" Deployment log (failed) "@, Tone::Bad),
        }
    }
}

pub fn deployment_log_title(log: &DeploymentLog, focused: bool) -> (r: Segment)
    ensures
        segment_view(r) == log_title(*log, focused),
{
    if !focused {
        return match &log.state {
            DeploymentLogState::Running => piece(" Deployment progress ".to_owned(), Tone::Warning),
            DeploymentLogState::Completed => piece(
                " Deployment log (completed) ".to_owned(),
                Tone::Good,
            ),
            DeploymentLogState::Failed(_) => piece(" Deployment log (failed) ".to_owned(), Tone::Bad),
        };
    }
    let offset = log.render_offset() as u64;
    let total = log.total_rows as u64;
    let start = if offset + 1 < total {
        offset + 1
    } else {
        total
    };
    let end = if offset + (log.viewport_rows as u64) < total {
        offset + (log.viewport_rows as u64)
    } else {
        total
    };
    let mut text = " Deployment log · ".to_owned();
    push_str(&mut text, log.application_name.as_str());
    push_str(&mut text, " · ");
    push_str(&mut text, crate::cli::tui::deployment_log_state_label(&log.state));
    push_str(&mut text, " · rows ");
    push_decimal(&mut text, start);
    push_str(&mut text, "–");
    push_decimal(&mut text, end);
    push_str(&mut text, " of ");
    push_decimal(&mut text, total);
    push_str(&mut text, " ");
    piece(text, Tone::Accent)
}


/// The columns left for a field's value after its prefix and the cursor cell; at
/// least one.
pub open spec fn available_width(interior_width: int, prefix_width: int) -> int {
    if interior_width - prefix_width - 1 > 1 {
        interior_width - prefix_width - 1
    } else {
        1
    }
}

/// The part of a value that fits: a value too long for its field shows its end
/// while it is edited (so the cursor marks the edit position) and its start
/// otherwise.
pub open spec fn field_window(value: Seq<char>, available: int, focused: bool) -> Seq<char> {
    if value.len() > available {
        if focused {
            value.subrange(value.len() - available, value.len() as int)
        } else {
            value.subrange(0, available)
        }
    } else {
        value
    }
}

pub open spec fn spaces(n: int) -> Seq<char> {
    Seq::new(n as nat, |i: int| ' ')
}

/// A popup's lines, the rows it needs, and where the terminal cursor goes,
/// relative to the popup's interior.
#[derive(Clone, Debug)]
pub struct PopupView {
    pub lines: Vec<PanelLine>,
    pub height: u16,
    pub cursor_column: u16,
    pub cursor_row: u16,
}

/// One line of a multi-field form: the label, then the visible value, padded to the
/// field's width when focused and muted otherwise.
pub open spec fn form_field_line(label: Seq<char>, value: Seq<char>, interior_width: int, focused: bool) -> Seq<
    (Seq<char>, Tone),
> {
    let prefix = label + ": "@;
    let available = available_width(interior_width, prefix.len() as int);
    let visible = field_window(value, available, focused);
    if focused {
        seq![(prefix, Tone::Plain), (visible, Tone::Field), (spaces(available - visible.len()), Tone::Field)]
    } else {
        seq![(prefix, Tone::Plain), (visible, Tone::Muted)]
    }
}

pub open spec fn form_hint_line() -> Seq<(Seq<char>, Tone)> {
    seq![
        (" Enter "@, Tone::GoodBadge),
        (" submit  "@, Tone::Plain),
        (" Tab/Up/Down "@, Tone::KeyBadge),
        (" field  "@, Tone::Plain),
        (" Esc "@, Tone::MutedBadge),
        (" cancel"@, Tone::Plain),
    ]
}

/// The lines of a multi-field form: its context, each field, its error, and the keys.
pub open spec fn form_view_lines(form: Form, interior_width: int) -> Seq<Seq<(Seq<char>, Tone)>> {
    let context = match form.context {
        Some(c) => seq![seq![(c@, Tone::Emphasis)], Seq::empty()],
        None => Seq::empty(),
    };
    let fields = Seq::new(
        form.fields@.len(),
        |i: int|
            form_field_line(
                form.fields@[i].label@,
                form.fields@[i].value@,
                interior_width,
                i == form.focused,
            ),
    );
    let error = match form.error {
        Some(e) => seq![seq![(e@, Tone::Bad)]],
        None => Seq::empty(),
    };
    context + fields + seq![Seq::empty()] + error + seq![form_hint_line()]
}

/// Where the cursor of a multi-field form goes: after the visible value of the
/// focused field, on that field's row.
pub open spec fn form_cursor(form: Form, interior_width: int) -> (int, int) {
    let prefix_width = form.fields@[form.focused as int].label@.len() + 2int;
    let value_width = form.fields@[form.focused as int].value@.len() as int;
    let available = available_width(interior_width, prefix_width);
    let first_row = if form.context is Some {
        2int
    } else {
        0int
    };
    (
        prefix_width + if value_width < available {
            value_width
        } else {
            available
        },
        first_row + form.focused,
    )
}

fn window_string(value: &str, available: usize, focused: bool) -> (r: String)
    ensures
        r@ == field_window(value@, available as int, focused),
{
    let chars = chars_of(value);
    let (start, end) = if chars.len() > available {
        if focused {
            (chars.len() - available, chars.len())
        } else {
            (0, available)
        }
    } else {
        (0, chars.len())
    };
    let mut out = String::new();
    let mut i = start;
    while i < end
        invariant
            start <= i <= end <= chars@.len(),
            chars@ == value@,
            out@ == value@.subrange(start as int, i as int),
        decreases end - i,
    {
        push_char(&mut out, chars[i]);
        assert(value@.subrange(start as int, i + 1) == value@.subrange(start as int, i as int).push(
            value@[i as int],
        ));
        i = i + 1;
    }
    assert(value@.subrange(0, value@.len() as int) == value@);
    out
}

fn space_string(n: usize) -> (r: String)
    ensures
        r@ == spaces(n as int),
{
    let mut out = String::new();
    let mut i: usize = 0;
    while i < n
        invariant
            i <= n,
            out@ == spaces(i as int),
        decreases n - i,
    {
        push_char(&mut out, ' ');
        assert(spaces(i + 1) =~= spaces(i as int).push(' '));
        i = i + 1;
    }
    out
}

fn available_columns(interior_width: u16, prefix_width: usize) -> (r: usize)
    ensures
        r == available_width(interior_width as int, prefix_width as int),
{
    let interior = interior_width as usize;
    if prefix_width < interior && interior - prefix_width - 1 > 1 {
        interior - prefix_width - 1
    } else {
        1
    }
}

fn field_line(label: &str, value: &str, interior_width: u16, focused: bool) -> (r: PanelLine)
    ensures
        line_view(r) == form_field_line(label@, value@, interior_width as int, focused),
{
    let mut prefix = label.to_owned();
    push_str(&mut prefix, ": ");
    let prefix_width = chars_of(prefix.as_str()).len();
    let available = available_columns(interior_width, prefix_width);
    let visible = window_string(value, available, focused);
    let visible_width = chars_of(visible.as_str()).len();
    let mut segments: Vec<Segment> = Vec::new();
    segments.push(piece(prefix, Tone::Plain));
    if focused {
        segments.push(piece(visible, Tone::Field));
        segments.push(piece(space_string(available - visible_width), Tone::Field));
    } else {
        segments.push(piece(visible, Tone::Muted));
    }
    let r = line_of(segments);
    assert(line_view(r) =~= form_field_line(label@, value@, interior_width as int, focused));
    r
}

fn badge_line(parts: Vec<Segment>) -> (r: PanelLine)
    ensures
        line_view(r) == Seq::new(parts@.len(), |i: int| segment_view(parts@[i])),
{
    line_of(parts)
}

fn form_hints() -> (r: PanelLine)
    ensures
        line_view(r) == form_hint_line(),
{
    let mut parts: Vec<Segment> = Vec::new();
    parts.push(piece(" Enter ".to_owned(), Tone::GoodBadge));
    parts.push(piece(" submit  ".to_owned(), Tone::Plain));
    parts.push(piece(" Tab/Up/Down ".to_owned(), Tone::KeyBadge));
    parts.push(piece(" field  ".to_owned(), Tone::Plain));
    parts.push(piece(" Esc ".to_owned(), Tone::MutedBadge));
    parts.push(piece(" cancel".to_owned(), Tone::Plain));
    let r = badge_line(parts);
    assert(line_view(r) =~= form_hint_line());
    r
}

fn empty_line() -> (r: PanelLine)
    ensures
        line_view(r) == Seq::<(Seq<char>, Tone)>::empty(),
{
    let r = line_of(Vec::new());
    assert(line_view(r) =~= Seq::<(Seq<char>, Tone)>::empty());
    r
}

/// The popup of a multi-field form, for an interior `interior_width` columns wide.
pub fn form_view(form: &Form, interior_width: u16) -> (r: PopupView)
    requires
        form.focused < form.fields@.len(),
        form.fields@.len() + (if form.error is Some {
            1int
        } else {
            0
        }) + 6 <= u16::MAX,
        form_cursor(*form, interior_width as int).0 <= u16::MAX,
    ensures
        lines_view(r.lines@) == form_view_lines(*form, interior_width as int),
        r.height == 2 + form.fields@.len() + 2 + (if form.error is Some {
            1int
        } else {
            0
        }) + 2,
        (r.cursor_column as int, r.cursor_row as int) == form_cursor(*form, interior_width as int),
{
    let mut lines: Vec<PanelLine> = Vec::new();
    if let Some(context) = &form.context {
        push_line(&mut lines, one_piece_line(piece(context.clone(), Tone::Emphasis)));
        push_line(&mut lines, empty_line());
    }
    let ghost head = lines_view(lines@);
    let first_row = lines.len();
    let mut i: usize = 0;
    while i < form.fields.len()
        invariant
            i <= form.fields@.len(),
            lines_view(lines@) == head + Seq::new(
                i as nat,
                |k: int|
                    form_field_line(
                        form.fields@[k].label@,
                        form.fields@[k].value@,
                        interior_width as int,
                        k == form.focused,
                    ),
            ),
        decreases form.fields@.len() - i,
    {
        let field = &form.fields[i];
        push_line(
            &mut lines,
            field_line(field.label, field.value.as_str(), interior_width, i == form.focused),
        );
        assert(lines_view(lines@) =~= head + Seq::new(
            (i + 1) as nat,
            |k: int|
                form_field_line(
                    form.fields@[k].label@,
                    form.fields@[k].value@,
                    interior_width as int,
                    k == form.focused,
                ),
        ));
        i = i + 1;
    }
    push_line(&mut lines, empty_line());
    if let Some(error) = &form.error {
        push_line(&mut lines, one_piece_line(piece(error.clone(), Tone::Bad)));
    }
    let ghost before_hints = lines_view(lines@);
    push_line(&mut lines, form_hints());
    assert(form.context is Some ==> head =~= seq![
        seq![(form.context->0@, Tone::Emphasis)],
        Seq::<(Seq<char>, Tone)>::empty(),
    ]);
    assert(form.context is None ==> head =~= Seq::<Seq<(Seq<char>, Tone)>>::empty());
    assert(lines_view(lines@) =~= form_view_lines(*form, interior_width as int));
    let focused = &form.fields[form.focused];
    let prefix_width = chars_of(focused.label).len() + 2;
    let value_width = chars_of(focused.value.as_str()).len();
    let available = available_columns(interior_width, prefix_width);
    let visible = if value_width < available {
        value_width
    } else {
        available
    };
    let error_rows: u16 = if form.error.is_some() {
        1
    } else {
        0
    };
    PopupView {
        lines,
        height: 2 + form.fields.len() as u16 + 2 + error_rows + 2,
        cursor_column: (prefix_width + visible) as u16,
        cursor_row: (first_row + form.focused) as u16,
    }
}


/// The selected source, the other one, and the label of the value being edited.
pub open spec fn deploy_source_labels(source: DeploySource) -> (Seq<char>, Seq<char>, Seq<char>) {
    match source {
        DeploySource::Branch => ("branch"@, "image"@, "Branch or tag"@),
        DeploySource::Image => ("image"@, "branch"@, "Image reference"@),
    }
}

pub open spec fn deploy_hint_line() -> Seq<(Seq<char>, Tone)> {
    seq![
        (" Enter "@, Tone::GoodBadge),
        (" deploy  "@, Tone::Plain),
        (" Tab "@, Tone::KeyBadge),
        (" switch source  "@, Tone::Plain),
        (" Backspace "@, Tone::KeyBadge),
        (" edit  "@, Tone::Plain),
        (" Esc "@, Tone::MutedBadge),
        (" cancel"@, Tone::Plain),
    ]
}

/// The lines of the deploy form: the application, the selected source, the edited
/// value (showing its end when too long), its error, and the keys.
pub open spec fn deploy_view_lines(form: DeployForm, interior_width: int) -> Seq<Seq<(Seq<char>, Tone)>> {
    let ghost labels = deploy_source_labels(form.source);
    let prefix = labels.2 + ": "@;
    let available = available_width(interior_width, prefix.len() as int);
    let visible = field_window(deploy_form_value(form), available, true);
    let error = match form.error {
        Some(e) => seq![seq![(e@, Tone::Bad)]],
        None => Seq::empty(),
    };
    seq![
        seq![("Deploy "@, Tone::Plain), (form.application_name@, Tone::Emphasis)],
        Seq::empty(),
        seq![
            ("Source: "@, Tone::Plain),
            (" "@ + labels.0 + " "@, Tone::KeyBadge),
            (" Tab switches to "@ + labels.1, Tone::Plain),
        ],
        seq![
            label(labels.2),
            (visible, Tone::Field),
            (spaces(available - visible.len()), Tone::Field),
        ],
    ] + error + seq![Seq::empty(), deploy_hint_line()]
}

/// The deploy form's cursor: after the visible value, on the value's row.
pub open spec fn deploy_cursor(form: DeployForm, interior_width: int) -> (int, int) {
    let prefix_width = deploy_source_labels(form.source).2.len() + 2int;
    let available = available_width(interior_width, prefix_width);
    let value_width = deploy_form_value(form).len() as int;
    (
        prefix_width + if value_width < available {
            value_width
        } else {
            available
        },
        3,
    )
}

fn deploy_hints() -> (r: PanelLine)
    ensures
        line_view(r) == deploy_hint_line(),
{
    let mut parts: Vec<Segment> = Vec::new();
    parts.push(piece(" Enter ".to_owned(), Tone::GoodBadge));
    parts.push(piece(" deploy  ".to_owned(), Tone::Plain));
    parts.push(piece(" Tab ".to_owned(), Tone::KeyBadge));
    parts.push(piece(" switch source  ".to_owned(), Tone::Plain));
    parts.push(piece(" Backspace ".to_owned(), Tone::KeyBadge));
    parts.push(piece(" edit  ".to_owned(), Tone::Plain));
    parts.push(piece(" Esc ".to_owned(), Tone::MutedBadge));
    parts.push(piece(" cancel".to_owned(), Tone::Plain));
    let r = badge_line(parts);
    assert(line_view(r) =~= deploy_hint_line());
    r
}

/// The popup of the deploy form, for an interior `interior_width` columns wide.
pub fn deploy_form_view(form: &DeployForm, interior_width: u16) -> (r: PopupView)
    ensures
        lines_view(r.lines@) == deploy_view_lines(*form, interior_width as int),
        r.height == 9,
        (r.cursor_column as int, r.cursor_row as int) == deploy_cursor(*form, interior_width as int),
{
    let (source_label, other_label, value_label) = match form.source {
        DeploySource::Branch => ("branch", "image", "Branch or tag"),
        DeploySource::Image => ("image", "branch", "Image reference"),
    };
    let mut prefix = value_label.to_owned();
    push_str(&mut prefix, ": ");
    proof {
        reveal_strlit("Branch or tag");
        reveal_strlit("Image reference");
        reveal_strlit(": ");
    }
    let prefix_width = chars_of(prefix.as_str()).len();
    let available = available_columns(interior_width, prefix_width);
    let visible = window_string(form.value(), available, true);
    let visible_width = chars_of(visible.as_str()).len();
    let mut lines: Vec<PanelLine> = Vec::new();
    push_line(
        &mut lines,
        two_piece_line(
            piece("Deploy ".to_owned(), Tone::Plain),
            piece(form.application_name.clone(), Tone::Emphasis),
        ),
    );
    push_line(&mut lines, empty_line());
    let mut badge = " ".to_owned();
    push_str(&mut badge, source_label);
    push_str(&mut badge, " ");
    let mut switch = " Tab switches to ".to_owned();
    push_str(&mut switch, other_label);
    let mut source_parts: Vec<Segment> = Vec::new();
    source_parts.push(piece("Source: ".to_owned(), Tone::Plain));
    source_parts.push(piece(badge, Tone::KeyBadge));
    source_parts.push(piece(switch, Tone::Plain));
    push_line(&mut lines, badge_line(source_parts));
    let mut value_parts: Vec<Segment> = Vec::new();
    value_parts.push(label_piece(value_label));
    value_parts.push(piece(visible, Tone::Field));
    value_parts.push(piece(space_string(available - visible_width), Tone::Field));
    push_line(&mut lines, badge_line(value_parts));
    let ghost head = lines_view(lines@);
    if let Some(error) = &form.error {
        push_line(&mut lines, one_piece_line(piece(error.clone(), Tone::Bad)));
    }
    push_line(&mut lines, empty_line());
    push_line(&mut lines, deploy_hints());
    let ghost labels = deploy_source_labels(form.source);
    let ghost expected = deploy_view_lines(*form, interior_width as int);
    assert(head[0] =~= expected[0]);
    assert(head[1] =~= expected[1]);
    assert(head[3] =~= expected[3]);
    assert(head[2] =~= seq![
        ("Source: "@, Tone::Plain),
        (" "@ + labels.0 + " "@, Tone::KeyBadge),
        (" Tab switches to "@ + labels.1, Tone::Plain),
    ]);
    assert(lines_view(lines@) =~= deploy_view_lines(*form, interior_width as int));
    PopupView {
        lines,
        height: 9,
        cursor_column: (prefix_width + visible_width) as u16,
        cursor_row: 3,
    }
}

pub open spec fn confirmation_view_lines(action: PendingAction) -> Seq<Seq<(Seq<char>, Tone)>> {
    seq![
        seq![(confirmation(action), Tone::Plain)],
        Seq::empty(),
        seq![
            (" Enter/y "@, Tone::GoodBadge),
            (" confirm   "@, Tone::Plain),
            (" Esc/n "@, Tone::ErrorBadge),
            (" cancel"@, Tone::Plain),
        ],
    ]
}

/// The popup asking to confirm an action.
pub fn confirmation_view(action: &PendingAction) -> (r: Vec<PanelLine>)
    ensures
        lines_view(r@) == confirmation_view_lines(*action),
{
    let mut lines: Vec<PanelLine> = Vec::new();
    push_line(&mut lines, one_piece_line(piece(action.confirmation_text(), Tone::Plain)));
    push_line(&mut lines, empty_line());
    let mut parts: Vec<Segment> = Vec::new();
    parts.push(piece(" Enter/y ".to_owned(), Tone::GoodBadge));
    parts.push(piece(" confirm   ".to_owned(), Tone::Plain));
    parts.push(piece(" Esc/n ".to_owned(), Tone::ErrorBadge));
    parts.push(piece(" cancel".to_owned(), Tone::Plain));
    push_line(&mut lines, badge_line(parts));
    let ghost expected = confirmation_view_lines(*action);
    assert(lines_view(lines@)[0] =~= expected[0]);
    assert(lines_view(lines@)[1] =~= expected[1]);
    assert(lines_view(lines@)[2] =~= expected[2]);
    assert(lines_view(lines@) =~= confirmation_view_lines(*action));
    lines
}


/// A listing panel: a notice when there is nothing to list, or one item of lines per
/// entry with the selected entry's index.
#[derive(Clone, Debug)]
pub enum ListingView {
    Notice(Vec<PanelLine>),
    Items { items: Vec<Vec<PanelLine>>, selected: Option<usize> },
}

pub open spec fn items_view(items: Seq<Vec<PanelLine>>) -> Seq<Seq<Seq<(Seq<char>, Tone)>>> {
    Seq::new(items.len(), |i: int| lines_view(items[i]@))
}

/// What a listing shows for a query that has not produced entries.
pub open spec fn query_notice(
    idle: Seq<char>,
    loading: Seq<char>,
    failure: Seq<char>,
    empty: Seq<char>,
    state_is_idle: bool,
    state_is_loading: bool,
    failed: Option<Seq<char>>,
) -> Seq<Seq<(Seq<char>, Tone)>> {
    if state_is_idle {
        seq![seq![(idle, Tone::Plain)]]
    } else if state_is_loading {
        seq![seq![(loading, Tone::Plain)]]
    } else {
        match failed {
            Some(error) => seq![seq![(failure, Tone::Bad)], seq![(error, Tone::Bad)]],
            None => seq![seq![(empty, Tone::Plain)]],
        }
    }
}

pub open spec fn catalog_item(entry: ApplicationCatalogEntry) -> Seq<Seq<(Seq<char>, Tone)>> {
    seq![
        seq![(entry.summary.name@, Tone::Emphasis)],
        seq![
            ("  "@, Tone::Plain),
            if entry.deployed {
                ("Has successful deployment"@, Tone::Good)
            } else {
                ("No successful deployment"@, Tone::Muted)
            },
        ],
    ]
}

pub open spec fn system_item(system: System) -> Seq<Seq<(Seq<char>, Tone)>> {
    seq![
        seq![(system.name@, Tone::Emphasis)],
        seq![("  "@, Tone::Plain), optional_value(opt_str_view(system.description))],
    ]
}

/// The listing `view` shows: a notice, or the items with the selected index.
pub open spec fn listing_shows(
    view: ListingView,
    notice: Option<Seq<Seq<(Seq<char>, Tone)>>>,
    items: Seq<Seq<Seq<(Seq<char>, Tone)>>>,
    selected: Option<int>,
) -> bool {
    match notice {
        Some(lines) => view matches ListingView::Notice(v) && lines_view(v@) == lines,
        None => view matches ListingView::Items { items: v, selected: s } && items_view(v@) == items
            && match (s, selected) {
            (Some(x), Some(y)) => x == y,
            (None, None) => true,
            _ => false,
        },
    }
}

pub open spec fn catalog_notice(state: QueryState<Vec<ApplicationCatalogEntry>>) -> Option<
    Seq<Seq<(Seq<char>, Tone)>>,
> {
    let notice = query_notice(
        "Refresh to load applications."@,
        "Loading applications..."@,
        "Could not load applications:"@,
        "No applications are registered."@,
        state is Idle,
        state is Loading,
        match state {
            QueryState::Failed(e) => Some(e@),
            _ => None,
        },
    );
    match state {
        QueryState::Ready(entries) => if entries@.len() == 0 {
            Some(notice)
        } else {
            None
        },
        _ => Some(notice),
    }
}

pub open spec fn systems_notice(state: QueryState<Vec<System>>) -> Option<Seq<Seq<(Seq<char>, Tone)>>> {
    let notice = query_notice(
        "Press r to load systems."@,
        "Loading systems..."@,
        "Could not load systems:"@,
        "No systems are registered. Press n to create one."@,
        state is Idle,
        state is Loading,
        match state {
            QueryState::Failed(e) => Some(e@),
            _ => None,
        },
    );
    match state {
        QueryState::Ready(systems) => if systems@.len() == 0 {
            Some(notice)
        } else {
            None
        },
        _ => Some(notice),
    }
}

fn notice(
    idle: &str,
    loading: &str,
    failure: &str,
    empty: &str,
    state_is_idle: bool,
    state_is_loading: bool,
    failed: Option<&String>,
) -> (r: Vec<PanelLine>)
    ensures
        lines_view(r@) == query_notice(
            idle@,
            loading@,
            failure@,
            empty@,
            state_is_idle,
            state_is_loading,
            match failed {
                Some(e) => Some(e@),
                None => None,
            },
        ),
{
    let mut lines: Vec<PanelLine> = Vec::new();
    if state_is_idle {
        push_line(&mut lines, plain_line(idle));
    } else if state_is_loading {
        push_line(&mut lines, plain_line(loading));
    } else {
        match failed {
            Some(error) => {
                push_line(&mut lines, one_piece_line(piece(failure.to_owned(), Tone::Bad)));
                push_line(&mut lines, one_piece_line(piece(error.clone(), Tone::Bad)));
            },
            None => push_line(&mut lines, plain_line(empty)),
        }
    }
    assert(lines_view(lines@) =~= query_notice(
        idle@,
        loading@,
        failure@,
        empty@,
        state_is_idle,
        state_is_loading,
        match failed {
            Some(e) => Some(e@),
            None => None,
        },
    ));
    lines
}

fn selected_position(names: &Vec<String>, selected: &Option<String>) -> (r: Option<usize>)
    ensures
        match (r, selected) {
            (_, None) => r is None,
            (Some(x), Some(name)) => position_of(strings_view_of(names@), name@) == Some(x as int),
            (None, Some(name)) => position_of(strings_view_of(names@), name@) is None,
        },
{
    match selected {
        Some(name) => crate::cli::tui::find_position(names, name.as_str()),
        None => None,
    }
}

fn item_lines(first: PanelLine, second: PanelLine) -> (r: Vec<PanelLine>)
    ensures
        lines_view(r@) == seq![line_view(first), line_view(second)],
{
    let mut lines: Vec<PanelLine> = Vec::new();
    push_line(&mut lines, first);
    push_line(&mut lines, second);
    assert(lines_view(lines@) =~= seq![line_view(first), line_view(second)]);
    lines
}

/// The applications listing for the catalog query and the selection.
pub fn catalog_listing(
    state: &QueryState<Vec<ApplicationCatalogEntry>>,
    selected: &Option<String>,
) -> (r: ListingView)
    ensures
        listing_shows(
            r,
            catalog_notice(*state),
            match *state {
                QueryState::Ready(entries) => Seq::new(
                    entries@.len(),
                    |i: int| catalog_item(entries@[i]),
                ),
                _ => Seq::empty(),
            },
            match (*state, *selected) {
                (QueryState::Ready(entries), Some(name)) => position_of(
                    entry_names(entries@),
                    name@,
                ),
                _ => None,
            },
        ),
{
    let failed = match state {
        QueryState::Failed(e) => Some(e),
        _ => None,
    };
    let is_idle = matches!(state, QueryState::Idle);
    let is_loading = matches!(state, QueryState::Loading);
    let entries = match state {
        QueryState::Ready(entries) => entries,
        _ => {
            return ListingView::Notice(
                notice(
                    "Refresh to load applications.",
                    "Loading applications...",
                    "Could not load applications:",
                    "No applications are registered.",
                    is_idle,
                    is_loading,
                    failed,
                ),
            );
        },
    };
    if entries.len() == 0 {
        return ListingView::Notice(
            notice(
                "Refresh to load applications.",
                "Loading applications...",
                "Could not load applications:",
                "No applications are registered.",
                false,
                false,
                None,
            ),
        );
    }
    let mut items: Vec<Vec<PanelLine>> = Vec::new();
    let mut i: usize = 0;
    while i < entries.len()
        invariant
            i <= entries@.len(),
            *state == QueryState::Ready(*entries),
            items_view(items@) == Seq::new(i as nat, |k: int| catalog_item(entries@[k])),
        decreases entries@.len() - i,
    {
        let entry = &entries[i];
        let deployment = if entry.deployed {
            piece("Has successful deployment".to_owned(), Tone::Good)
        } else {
            piece("No successful deployment".to_owned(), Tone::Muted)
        };
        let item = item_lines(
            one_piece_line(piece(entry.summary.name.as_str().to_owned(), Tone::Emphasis)),
            two_piece_line(piece("  ".to_owned(), Tone::Plain), deployment),
        );
        let ghost expected = catalog_item(entries@[i as int]);
        assert(lines_view(item@)[0] =~= expected[0]);
        assert(lines_view(item@)[1] =~= expected[1]);
        assert(lines_view(item@) =~= expected);
        let ghost before = items_view(items@);
        items.push(item);
        assert(items_view(items@) =~= before.push(expected));
        assert(items_view(items@) =~= Seq::new((i + 1) as nat, |k: int| catalog_item(entries@[k])));
        i = i + 1;
    }
    let names = crate::cli::session::entry_name_list(entries);
    let position = selected_position(&names, selected);
    ListingView::Items { items, selected: position }
}

/// The systems listing for the systems query and the selection.
pub fn systems_listing(state: &QueryState<Vec<System>>, selected: &Option<String>) -> (r: ListingView)
    ensures
        listing_shows(
            r,
            systems_notice(*state),
            match *state {
                QueryState::Ready(systems) => Seq::new(
                    systems@.len(),
                    |i: int| system_item(systems@[i]),
                ),
                _ => Seq::empty(),
            },
            match (*state, *selected) {
                (QueryState::Ready(systems), Some(name)) => position_of(
                    system_names(systems@),
                    name@,
                ),
                _ => None,
            },
        ),
{
    let failed = match state {
        QueryState::Failed(e) => Some(e),
        _ => None,
    };
    let is_idle = matches!(state, QueryState::Idle);
    let is_loading = matches!(state, QueryState::Loading);
    let systems = match state {
        QueryState::Ready(systems) => systems,
        _ => {
            return ListingView::Notice(
                notice(
                    "Press r to load systems.",
                    "Loading systems...",
                    "Could not load systems:",
                    "No systems are registered. Press n to create one.",
                    is_idle,
                    is_loading,
                    failed,
                ),
            );
        },
    };
    if systems.len() == 0 {
        return ListingView::Notice(
            notice(
                "Press r to load systems.",
                "Loading systems...",
                "Could not load systems:",
                "No systems are registered. Press n to create one.",
                false,
                false,
                None,
            ),
        );
    }
    let mut items: Vec<Vec<PanelLine>> = Vec::new();
    let mut i: usize = 0;
    while i < systems.len()
        invariant
            i <= systems@.len(),
            *state == QueryState::Ready(*systems),
            items_view(items@) == Seq::new(i as nat, |k: int| system_item(systems@[k])),
        decreases systems@.len() - i,
    {
        let system = &systems[i];
        let item = item_lines(
            one_piece_line(piece(system.name.as_str().to_owned(), Tone::Emphasis)),
            two_piece_line(
                piece("  ".to_owned(), Tone::Plain),
                optional_piece(optional_string(&system.description)),
            ),
        );
        let ghost expected = system_item(systems@[i as int]);
        assert(lines_view(item@)[0] =~= expected[0]);
        assert(lines_view(item@)[1] =~= expected[1]);
        assert(lines_view(item@) =~= expected);
        let ghost before = items_view(items@);
        items.push(item);
        assert(items_view(items@) =~= before.push(expected));
        assert(items_view(items@) =~= Seq::new((i + 1) as nat, |k: int| system_item(systems@[k])));
        i = i + 1;
    }
    let names = crate::cli::session::system_name_list(systems);
    let position = selected_position(&names, selected);
    ListingView::Items { items, selected: position }
}


/// The system details panel for each state of its query.
pub open spec fn system_details_panel_view(state: QueryState<SystemDetails>) -> Seq<
    Seq<(Seq<char>, Tone)>,
> {
    match state {
        QueryState::Idle => seq![
            seq![("The system details were not requested yet. Press r to load them."@, Tone::Plain)],
        ],
        QueryState::Loading => seq![seq![("Loading system details..."@, Tone::Plain)]],
        QueryState::Failed(error) => seq![
            seq![("Could not load system details:"@, Tone::Plain)],
            seq![(error@, Tone::Bad)],
        ],
        QueryState::Ready(details) => system_details_view(details),
    }
}

pub fn system_details_panel(state: &QueryState<SystemDetails>) -> (r: Vec<PanelLine>)
    ensures
        lines_view(r@) == system_details_panel_view(*state),
{
    match state {
        QueryState::Ready(details) => system_details_lines(details),
        QueryState::Idle => {
            let mut lines: Vec<PanelLine> = Vec::new();
            push_line(
                &mut lines,
                plain_line("The system details were not requested yet. Press r to load them."),
            );
            assert(lines_view(lines@) =~= system_details_panel_view(*state));
            lines
        },
        QueryState::Loading => {
            let mut lines: Vec<PanelLine> = Vec::new();
            push_line(&mut lines, plain_line("Loading system details..."));
            assert(lines_view(lines@) =~= system_details_panel_view(*state));
            lines
        },
        QueryState::Failed(error) => {
            let mut lines: Vec<PanelLine> = Vec::new();
            push_line(&mut lines, plain_line("Could not load system details:"));
            push_line(&mut lines, one_piece_line(piece(error.clone(), Tone::Bad)));
            assert(lines_view(lines@) =~= system_details_panel_view(*state));
            lines
        },
    }
}

/// The last action panel: the outcome of the last action on what is shown, or a
/// note that none has completed.
pub open spec fn last_action_view(message: Option<Seq<char>>, none: Seq<char>) -> Seq<
    Seq<(Seq<char>, Tone)>,
> {
    match message {
        Some(m) => seq![seq![(m, Tone::Plain)]],
        None => seq![seq![(none, Tone::Plain)]],
    }
}

fn last_action(message: Option<&str>, none: &str) -> (r: Vec<PanelLine>)
    ensures
        lines_view(r@) == last_action_view(
            match message {
                Some(m) => Some(m@),
                None => None,
            },
            none@,
        ),
{
    let mut lines: Vec<PanelLine> = Vec::new();
    match message {
        Some(m) => push_line(&mut lines, plain_line(m)),
        None => push_line(&mut lines, plain_line(none)),
    }
    assert(lines_view(lines@) =~= last_action_view(
        match message {
            Some(m) => Some(m@),
            None => None,
        },
        none@,
    ));
    lines
}

pub fn application_last_action(session: &Session) -> (r: Vec<PanelLine>)
    ensures
        lines_view(r@) == last_action_view(
            detail_outcome(*session),
            "No action has completed for this application."@,
        ),
{
    last_action(session.outcome_for_detail(), "No action has completed for this application.")
}

pub fn system_last_action(session: &Session) -> (r: Vec<PanelLine>)
    ensures
        lines_view(r@) == last_action_view(
            system_detail_outcome(*session),
            "No action has completed for this system."@,
        ),
{
    last_action(session.outcome_for_system_detail(), "No action has completed for this system.")
}

/// The application summary: the selected catalog entry's details, or a note when
/// the selection left the catalog.
pub fn application_summary(session: &Session) -> (r: Vec<PanelLine>)
    ensures
        match (session.catalog, session.selected_application) {
            (QueryState::Ready(entries), Some(selected)) => match position_of(
                entry_names(entries@),
                selected@,
            ) {
                Some(_) => exists|i: int|
                    0 <= i < entries@.len() && entries@[i].summary.name@ == selected@ && lines_view(
                        r@,
                    ) == application_details_view(entries@[i]),
                None => lines_view(r@) == seq![
                    seq![("The selected application is no longer in the catalog."@, Tone::Plain)],
                ],
            },
            _ => lines_view(r@) == seq![
                seq![("The selected application is no longer in the catalog."@, Tone::Plain)],
            ],
        },
{
    match session.selected_entry() {
        Some(entry) => {
            let r = application_details_lines(entry);
            proof {
                if session.catalog is Ready && session.selected_application is Some {
                    let entries = session.catalog->Ready_0;
                    let selected = session.selected_application->0;
                    crate::cli::tui::lemma_position_in_bounds(entry_names(entries@), selected@);
                    let i = choose|i: int| 0 <= i < entries@.len() && entries@[i] == *entry;
                    assert(entry_names(entries@)[i] == selected@);
                }
            }
            r
        },
        None => {
            let mut lines: Vec<PanelLine> = Vec::new();
            push_line(&mut lines, plain_line("The selected application is no longer in the catalog."));
            proof {
                if session.catalog is Ready && session.selected_application is Some {
                    let entries = session.catalog->Ready_0;
                    let selected = session.selected_application->0;
                    crate::cli::tui::lemma_position_in_bounds(entry_names(entries@), selected@);
                    if position_of(entry_names(entries@), selected@) is Some {
                        let i = position_of(entry_names(entries@), selected@)->0;
                        assert(entries@[i].summary.name@ == selected@);
                    }
                }
            }
            assert(lines_view(lines@) =~= seq![
                seq![("The selected application is no longer in the catalog."@, Tone::Plain)],
            ]);
            lines
        },
    }
}

/// The runtime status shown beside the application details: the loaded status
/// when it belongs to the selection, else the not-requested note.
pub fn detail_runtime(session: &Session) -> (r: Vec<PanelLine>)
    ensures
        lines_view(r@) == if detail_runtime_shown(*session) {
            runtime_view(session.runtime)
        } else {
            runtime_view(QueryState::Idle)
        },
{
    match session.runtime_for_detail() {
        Some(state) => runtime_lines(state),
        None => runtime_lines(&QueryState::Idle),
    }
}

/// How the Applications tab's details column is laid out.
#[derive(Clone, Copy, Debug, PartialEq, Eq, Structural)]
pub enum DetailLayout {
    NoSelection,
    FocusedLog,
    Summary { with_log: bool },
}

pub open spec fn detail_layout_of(s: Session) -> DetailLayout {
    if s.selected_application is None {
        DetailLayout::NoSelection
    } else if s.focus == Focus::Log && log_for_detail(s) {
        DetailLayout::FocusedLog
    } else {
        DetailLayout::Summary { with_log: log_for_detail(s) }
    }
}

/// With no selection a note fills the column; a focused log takes the whole column;
/// otherwise the summary panels show, with the log between them and the last action
/// when the selected application has one.
pub fn detail_layout(session: &Session) -> (r: DetailLayout)
    ensures
        r == detail_layout_of(*session),
{
    if session.selected_application.is_none() {
        return DetailLayout::NoSelection;
    }
    let with_log = session.log_is_for_detail();
    if matches!(session.focus, Focus::Log) && with_log {
        DetailLayout::FocusedLog
    } else {
        DetailLayout::Summary { with_log }
    }
}

} // verus!
