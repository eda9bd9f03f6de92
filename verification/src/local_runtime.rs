//! Local container runtime through Podman: the identity and labels a candidate
//! container is created with, the arguments of each Podman invocation, and the
//! interpretation of what Podman reports. Running Podman is the caller's work.

use vstd::prelude::*;

use crate::domain::runtime::{IpAddress, SocketAddress};
use crate::text::{
    all_digits, chars_of, find_char, first_index_of, is_ascii_hexdigit, push_decimal, push_str,
    range_all_digits, range_eq, starts_with, str_eq, string_from_range, trim, trim_range,
};

verus! {

pub const APPLICATION_LABEL: &'static str = "io.pneuma.application";

pub const REVISION_LABEL: &'static str = "io.pneuma.revision";

pub const ROLE_LABEL: &'static str = "io.pneuma.role";

#[derive(Debug, PartialEq, Eq)]
pub struct CreatedContainer {
    pub id: String,
    pub name: String,
    pub stdout: String,
    pub stderr: String,
}

#[derive(Debug, PartialEq, Eq)]
pub struct ContainerCommandOutput {
    pub stdout: String,
    pub stderr: String,
}

#[derive(Debug, PartialEq, Eq)]
pub enum ObservedRuntimeState {
    Missing,
    Created,
    Starting,
    Running,
    Stopping,
    Stopped,
    Failed,
    Unknown { status: String },
}

#[derive(Debug, PartialEq, Eq)]
pub struct ContainerObservation {
    pub state: ObservedRuntimeState,
    pub endpoint: Option<SocketAddress>,
}

/// Creating a candidate container failed; `Execute` carries the launch error's text.
#[derive(Debug)]
pub enum CreateContainerError {
    InvalidPort,
    Execute { message: String },
    Create { name: String, stdout: String, stderr: String },
    InvalidOutput { name: String },
}

/// Starting, stopping, or removing a container failed.
#[derive(Debug)]
pub enum ControlContainerError {
    InvalidContainerId,
    Execute { operation: &'static str, message: String },
    Podman { operation: &'static str, container_id: String, stdout: String, stderr: String },
}

/// Observing a container failed.
#[derive(Debug)]
pub enum ObserveContainerError {
    InvalidContainerId,
    InvalidPort,
    Execute { operation: &'static str, message: String },
    Podman { operation: &'static str, container_id: String, stdout: String, stderr: String },
    InvalidState { container_id: String },
    InvalidEndpoint { container_id: String, output: String },
}

/// A Podman container ID: non-empty and hexadecimal.
pub open spec fn container_id_text(s: Seq<char>) -> bool {
    s.len() > 0 && forall|i: int| 0 <= i < s.len() ==> is_ascii_hexdigit(#[trigger] s[i])
}

pub fn is_container_id(container_id: &str) -> (r: bool)
    ensures
        r == container_id_text(container_id@),
{
    let v = chars_of(container_id);
    if v.len() == 0 {
        return false;
    }
    let mut i: usize = 0;
    while i < v.len()
        invariant
            i <= v@.len(),
            v@ == container_id@,
            forall|k: int| 0 <= k < i ==> is_ascii_hexdigit(#[trigger] v@[k]),
        decreases v@.len() - i,
    {
        if !crate::text::char_is_ascii_hexdigit(v[i]) {
            return false;
        }
        i = i + 1;
    }
    true
}

/// Trimmed stderr when it says anything, else trimmed stdout.
pub open spec fn diagnostic_text(stdout: Seq<char>, stderr: Seq<char>) -> Seq<char> {
    if trim(stderr).len() == 0 {
        trim(stdout)
    } else {
        trim(stderr)
    }
}

/// The trimmed text of `s`.
pub fn trimmed(s: &str) -> (r: String)
    ensures
        r@ == trim(s@),
{
    let v = chars_of(s);
    let (a, b) = trim_range(&v, 0, v.len());
    assert(v@.subrange(0, v@.len() as int) == v@);
    string_from_range(&v, a, b)
}

pub fn diagnostic(stdout: &str, stderr: &str) -> (r: String)
    ensures
        r@ == diagnostic_text(stdout@, stderr@),
{
    let error = trimmed(stderr);
    if error.as_str().is_empty() {
        trimmed(stdout)
    } else {
        error
    }
}

pub open spec fn container_name_text(application_name: Seq<char>, commit_sha: Seq<char>) -> Seq<char> {
    "pneuma-"@ + application_name + "-"@ + commit_sha
}

/// The stable container name of an application's revision.
pub fn container_name(application_name: &str, commit_sha: &str) -> (r: String)
    ensures
        r@ == container_name_text(application_name@, commit_sha@),
{
    let mut out = "pneuma-".to_owned();
    push_str(&mut out, application_name);
    push_str(&mut out, "-");
    push_str(&mut out, commit_sha);
    out
}

/// The runtime state a known Podman status names; other statuses are kept verbatim.
pub open spec fn podman_state_known(status: Seq<char>) -> Option<ObservedRuntimeState> {
    if status == "configured"@ || status == "created"@ {
        Some(ObservedRuntimeState::Created)
    } else if status == "initialized"@ {
        Some(ObservedRuntimeState::Starting)
    } else if status == "running"@ {
        Some(ObservedRuntimeState::Running)
    } else if status == "stopping"@ || status == "removing"@ {
        Some(ObservedRuntimeState::Stopping)
    } else if status == "stopped"@ || status == "exited"@ {
        Some(ObservedRuntimeState::Stopped)
    } else if status == "dead"@ {
        Some(ObservedRuntimeState::Failed)
    } else {
        None
    }
}

/// Podman's container lifecycle maps onto runtime states: a container that exists but
/// was never started (`configured`, `created`) is Created, `initialized` is Starting,
/// `running` is Running, `stopping` and `removing` are Stopping, `stopped` and
/// `exited` are Stopped, `dead` is Failed; only a status outside that vocabulary is
/// kept as unknown.
pub proof fn lemma_podman_lifecycle_states(status: Seq<char>)
    ensures
        status == "configured"@ || status == "created"@ <==> podman_state_known(status) == Some(
            ObservedRuntimeState::Created,
        ),
        status == "initialized"@ <==> podman_state_known(status) == Some(ObservedRuntimeState::Starting),
        status == "running"@ <==> podman_state_known(status) == Some(ObservedRuntimeState::Running),
        status == "stopping"@ || status == "removing"@ <==> podman_state_known(status) == Some(
            ObservedRuntimeState::Stopping,
        ),
        status == "stopped"@ || status == "exited"@ <==> podman_state_known(status) == Some(
            ObservedRuntimeState::Stopped,
        ),
        status == "dead"@ <==> podman_state_known(status) == Some(ObservedRuntimeState::Failed),
        podman_state_known(status) is None <==> !(status == "configured"@ || status == "created"@
            || status == "initialized"@ || status == "running"@ || status == "stopping"@ || status
            == "removing"@ || status == "stopped"@ || status == "exited"@ || status == "dead"@),
{
    reveal_strlit("configured");
    reveal_strlit("created");
    reveal_strlit("initialized");
    reveal_strlit("running");
    reveal_strlit("stopping");
    reveal_strlit("removing");
    reveal_strlit("stopped");
    reveal_strlit("exited");
    reveal_strlit("dead");
    assert(("configured"@).len() == 10 && ("configured"@)[0] == 'c');
    assert(("created"@).len() == 7 && ("created"@)[0] == 'c');
    assert(("initialized"@).len() == 11 && ("initialized"@)[0] == 'i');
    assert(("running"@).len() == 7 && ("running"@)[0] == 'r');
    assert(("stopping"@).len() == 8 && ("stopping"@)[0] == 's');
    assert(("removing"@).len() == 8 && ("removing"@)[0] == 'r');
    assert(("stopped"@).len() == 7 && ("stopped"@)[0] == 's');
    assert(("exited"@).len() == 6 && ("exited"@)[0] == 'e');
    assert(("dead"@).len() == 4 && ("dead"@)[0] == 'd');
    assert("created"@ != "running"@ && "created"@ != "stopped"@ && "running"@ != "stopped"@);
    assert("stopping"@ != "removing"@);
}

/// Maps a Podman container status onto an explicit runtime state.
pub fn observed_state(status: &str) -> (r: ObservedRuntimeState)
    ensures
        match podman_state_known(status@) {
            Some(state) => r == state,
            None => r matches ObservedRuntimeState::Unknown { status: s } && s@ == status@,
        },
{
    if str_eq(status, "configured") || str_eq(status, "created") {
        ObservedRuntimeState::Created
    } else if str_eq(status, "initialized") {
        ObservedRuntimeState::Starting
    } else if str_eq(status, "running") {
        ObservedRuntimeState::Running
    } else if str_eq(status, "stopping") || str_eq(status, "removing") {
        ObservedRuntimeState::Stopping
    } else if str_eq(status, "stopped") || str_eq(status, "exited") {
        ObservedRuntimeState::Stopped
    } else if str_eq(status, "dead") {
        ObservedRuntimeState::Failed
    } else {
        ObservedRuntimeState::Unknown { status: status.to_owned() }
    }
}

fn label(key: &str, value: &str) -> (r: String)
    ensures
        r@ == key@ + "="@ + value@,
{
    let mut out = key.to_owned();
    push_str(&mut out, "=");
    push_str(&mut out, value);
    out
}

pub open spec fn texts(v: Seq<String>) -> Seq<Seq<char>> {
    Seq::new(v.len(), |i: int| v[i]@)
}

/// The `podman create` arguments of a candidate: never pull, the stable name, the
/// application, revision, and candidate-role labels, and the container port published
/// only on loopback with a host port Podman chooses.
pub open spec fn create_arguments(
    image_reference: Seq<char>,
    application_name: Seq<char>,
    commit_sha: Seq<char>,
    container_port: u16,
) -> Seq<Seq<char>> {
    seq![
        "create"@,
        "--pull=never"@,
        "--name"@,
        container_name_text(application_name, commit_sha),
        "--label"@,
        APPLICATION_LABEL@ + "="@ + application_name,
        "--label"@,
        REVISION_LABEL@ + "="@ + commit_sha,
        "--label"@,
        ROLE_LABEL@ + "="@ + "candidate"@,
        "--publish"@,
        "127.0.0.1::"@ + crate::text::decimal(container_port as nat),
        image_reference,
    ]
}

pub fn create_container_arguments(
    image_reference: &str,
    application_name: &str,
    commit_sha: &str,
    container_port: u16,
) -> (r: Result<Vec<String>, CreateContainerError>)
    ensures
        container_port == 0 <==> r matches Err(CreateContainerError::InvalidPort),
        container_port != 0 <==> r is Ok,
        r is Ok ==> texts(r->Ok_0@) == create_arguments(
            image_reference@,
            application_name@,
            commit_sha@,
            container_port,
        ),
{
    if container_port == 0 {
        return Err(CreateContainerError::InvalidPort);
    }
    let mut arguments: Vec<String> = Vec::new();
    arguments.push("create".to_owned());
    arguments.push("--pull=never".to_owned());
    arguments.push("--name".to_owned());
    arguments.push(container_name(application_name, commit_sha));
    arguments.push("--label".to_owned());
    arguments.push(label(APPLICATION_LABEL, application_name));
    arguments.push("--label".to_owned());
    arguments.push(label(REVISION_LABEL, commit_sha));
    arguments.push("--label".to_owned());
    arguments.push(label(ROLE_LABEL, "candidate"));
    arguments.push("--publish".to_owned());
    let mut mapping = "127.0.0.1::".to_owned();
    push_decimal(&mut mapping, container_port as u64);
    arguments.push(mapping);
    arguments.push(image_reference.to_owned());
    assert(texts(arguments@) =~= create_arguments(
        image_reference@,
        application_name@,
        commit_sha@,
        container_port,
    ));
    Ok(arguments)
}

/// A created container from what a successful `podman create` printed: its ID is the
/// trimmed output, which must be a container ID.
pub fn created_container(name: String, stdout: String, stderr: String) -> (r: Result<
    CreatedContainer,
    CreateContainerError,
>)
    ensures
        container_id_text(trim(stdout@)) ==> (r matches Ok(c) && c.id@ == trim(stdout@) && c.name
            == name && c.stdout == stdout && c.stderr == stderr),
        !container_id_text(trim(stdout@)) ==> (r matches Err(CreateContainerError::InvalidOutput {
            name: n,
        }) && n == name),
{
    let id = trimmed(stdout.as_str());
    if !is_container_id(id.as_str()) {
        return Err(CreateContainerError::InvalidOutput { name });
    }
    Ok(CreatedContainer { id, name, stdout, stderr })
}

/// The arguments of one container control operation, after validating the ID.
pub fn control_arguments(arguments: &Vec<&str>, container_id: &str) -> (r: Result<
    Vec<String>,
    ControlContainerError,
>)
    ensures
        !container_id_text(container_id@) <==> r matches Err(ControlContainerError::InvalidContainerId),
        container_id_text(container_id@) <==> r is Ok,
        r is Ok ==> r->Ok_0@.len() == arguments@.len() + 1 && (forall|i: int|
            0 <= i < arguments@.len() ==> (#[trigger] r->Ok_0@[i])@ == arguments@[i]@)
            && r->Ok_0@.last()@ == container_id@,
{
    if !is_container_id(container_id) {
        return Err(ControlContainerError::InvalidContainerId);
    }
    let mut out: Vec<String> = Vec::new();
    let mut i: usize = 0;
    while i < arguments.len()
        invariant
            i <= arguments@.len(),
            out@.len() == i,
            forall|k: int| 0 <= k < i ==> (#[trigger] out@[k])@ == arguments@[k]@,
        decreases arguments@.len() - i,
    {
        out.push(arguments[i].to_owned());
        i = i + 1;
    }
    out.push(container_id.to_owned());
    Ok(out)
}

/// The outcome of a container control operation from Podman's exit status and output.
pub fn control_outcome(
    operation: &'static str,
    container_id: &str,
    succeeded: bool,
    stdout: String,
    stderr: String,
) -> (r: Result<ContainerCommandOutput, ControlContainerError>)
    ensures
        succeeded ==> r == Ok::<ContainerCommandOutput, ControlContainerError>(
            ContainerCommandOutput { stdout, stderr },
        ),
        !succeeded ==> (r matches Err(
            ControlContainerError::Podman { operation: o, container_id: c, stdout: out, stderr: err },
        ) && o == operation && c@ == container_id@ && out == stdout && err == stderr),
{
    if !succeeded {
        return Err(
            ControlContainerError::Podman {
                operation,
                container_id: container_id.to_owned(),
                stdout,
                stderr,
            },
        );
    }
    Ok(ContainerCommandOutput { stdout, stderr })
}

/// One Podman container operation: its name in messages and its arguments.
#[derive(Debug, PartialEq, Eq)]
pub struct ContainerControl {
    pub operation: &'static str,
    pub arguments: Vec<String>,
}

fn control_command(operation: &'static str, arguments: &Vec<&str>, container_id: &str) -> (r:
    Result<ContainerControl, ControlContainerError>)
    ensures
        !container_id_text(container_id@) <==> r matches Err(ControlContainerError::InvalidContainerId),
        container_id_text(container_id@) <==> r is Ok,
        r is Ok ==> r->Ok_0.operation == operation && texts(r->Ok_0.arguments@) == Seq::new(
            arguments@.len(),
            |i: int| arguments@[i]@,
        ).push(container_id@),
{
    match control_arguments(arguments, container_id) {
        Ok(out) => {
            assert(texts(out@) =~= Seq::new(arguments@.len(), |i: int| arguments@[i]@).push(
                container_id@,
            ));
            Ok(ContainerControl { operation, arguments: out })
        },
        Err(e) => Err(e),
    }
}

/// `podman start <id>`, after validating the ID.
pub fn start_container_command(container_id: &str) -> (r: Result<ContainerControl, ControlContainerError>)
    ensures
        !container_id_text(container_id@) <==> r matches Err(ControlContainerError::InvalidContainerId),
        container_id_text(container_id@) <==> r is Ok,
        r is Ok ==> r->Ok_0.operation == "starting" && texts(r->Ok_0.arguments@) == seq![
            "start"@,
            container_id@,
        ],
{
    let arguments: Vec<&str> = vec!["start"];
    let r = control_command("starting", &arguments, container_id);
    proof {
        if r is Ok {
            assert(texts(r->Ok_0.arguments@) =~= seq!["start"@, container_id@]);
        }
    }
    r
}

/// `podman stop <id>`, after validating the ID.
pub fn stop_container_command(container_id: &str) -> (r: Result<ContainerControl, ControlContainerError>)
    ensures
        !container_id_text(container_id@) <==> r matches Err(ControlContainerError::InvalidContainerId),
        container_id_text(container_id@) <==> r is Ok,
        r is Ok ==> r->Ok_0.operation == "stopping" && texts(r->Ok_0.arguments@) == seq![
            "stop"@,
            container_id@,
        ],
{
    let arguments: Vec<&str> = vec!["stop"];
    let r = control_command("stopping", &arguments, container_id);
    proof {
        if r is Ok {
            assert(texts(r->Ok_0.arguments@) =~= seq!["stop"@, container_id@]);
        }
    }
    r
}

/// `podman container rm --force <id>`, after validating the ID.
pub fn remove_container_command(container_id: &str) -> (r: Result<ContainerControl, ControlContainerError>)
    ensures
        !container_id_text(container_id@) <==> r matches Err(ControlContainerError::InvalidContainerId),
        container_id_text(container_id@) <==> r is Ok,
        r is Ok ==> r->Ok_0.operation == "removing" && texts(r->Ok_0.arguments@) == seq![
            "container"@,
            "rm"@,
            "--force"@,
            container_id@,
        ],
{
    let arguments: Vec<&str> = vec!["container", "rm", "--force"];
    let r = control_command("removing", &arguments, container_id);
    proof {
        if r is Ok {
            assert(texts(r->Ok_0.arguments@) =~= seq![
                "container"@,
                "rm"@,
                "--force"@,
                container_id@,
            ]);
        }
    }
    r
}

/// The first line of `s` as `str::lines` yields it: everything before the first `\n`,
/// without a `\r` right before that `\n`.
pub open spec fn first_line(s: Seq<char>) -> Seq<char> {
    match first_index_of(s, '\n') {
        Some(i) => {
            let line = s.subrange(0, i);
            if line.len() > 0 && line.last() == '\r' {
                line.drop_last()
            } else {
                line
            }
        },
        None => s,
    }
}

/// The value of a string of decimal digits.
pub open spec fn digits_value(s: Seq<char>) -> nat
    decreases s.len(),
{
    if s.len() == 0 {
        0
    } else {
        digits_value(s.drop_last()) * 10 + (s.last() as int - '0' as int) as nat
    }
}

/// The port of `127.0.0.1:<port>`, the only address `SocketAddr` parsing reads as IPv4
/// loopback: the address written exactly so (no leading zeros), a colon, and one or more
/// decimal digits worth at most 65535.
pub open spec fn loopback_port(line: Seq<char>) -> Option<u16> {
    let prefix = "127.0.0.1:"@;
    let digits = line.subrange(prefix.len() as int, line.len() as int);
    if starts_with(line, prefix) && digits.len() > 0 && all_digits(digits) && digits_value(digits)
        <= 65535 {
        Some(digits_value(digits) as u16)
    } else {
        None
    }
}

/// Reads the digits `v[start..end]` as a port, or `None` past 65535.
fn port_value(v: &Vec<char>, start: usize, end: usize) -> (r: Option<u16>)
    requires
        start <= end <= v@.len(),
        all_digits(v@.subrange(start as int, end as int)),
    ensures
        digits_value(v@.subrange(start as int, end as int)) <= 65535 ==> r == Some(
            digits_value(v@.subrange(start as int, end as int)) as u16,
        ),
        digits_value(v@.subrange(start as int, end as int)) > 65535 ==> r is None,
{
    let mut value: u32 = 0;
    let mut i = start;
    while i < end
        invariant
            start <= i <= end <= v@.len(),
            all_digits(v@.subrange(start as int, end as int)),
            value == digits_value(v@.subrange(start as int, i as int)),
            value <= 65535,
        decreases end - i,
    {
        let ghost prefix = v@.subrange(start as int, i as int);
        assert(v@.subrange(start as int, i + 1).drop_last() == prefix);
        assert(v@.subrange(start as int, end as int)[i - start] == v@[i as int]);
        let digit = (v[i] as u32) - ('0' as u32);
        let next = value * 10 + digit;
        if next > 65535 {
            proof {
                lemma_digits_value_grows(v@.subrange(start as int, end as int), i - start + 1);
                assert(v@.subrange(start as int, end as int).subrange(0, i - start + 1)
                    == v@.subrange(start as int, i + 1));
            }
            return None;
        }
        value = next;
        i = i + 1;
    }
    Some(value as u16)
}

/// A prefix of a digit string is worth no more than the whole string.
proof fn lemma_digits_value_grows(s: Seq<char>, k: int)
    requires
        0 <= k <= s.len(),
        all_digits(s),
    ensures
        digits_value(s.subrange(0, k)) <= digits_value(s),
    decreases s.len() - k,
{
    if k < s.len() {
        lemma_digits_value_grows(s, k + 1);
        let t = s.subrange(0, k + 1);
        assert(t.drop_last() == s.subrange(0, k));
        assert(is_ascii_digit_at(s, k));
    } else {
        assert(s.subrange(0, k) == s);
    }
}

spec fn is_ascii_digit_at(s: Seq<char>, k: int) -> bool {
    crate::text::is_ascii_digit(s[k])
}

/// The end of `first_line(v[start..end])`, which begins at `start`.
fn first_line_end(v: &Vec<char>, start: usize, end: usize) -> (r: usize)
    requires
        start <= end <= v@.len(),
    ensures
        start <= r <= end,
        v@.subrange(start as int, r as int) == first_line(v@.subrange(start as int, end as int)),
{
    let ghost t = v@.subrange(start as int, end as int);
    let newline = find_char(v, start, end, '\n');
    let mut line_end = newline;
    if newline < end && line_end > start && v[line_end - 1] == '\r' {
        line_end = line_end - 1;
    }
    proof {
        if newline < end {
            assert(t[newline - start] == '\n');
            assert(crate::text::has_char(t, '\n'));
            let i = choose|i: int|
                0 <= i < t.len() && t[i] == '\n' && forall|j: int| 0 <= j < i ==> t[j] != '\n';
            assert(first_index_of(t, '\n') == Some(i));
            if i < newline - start {
                assert(v@[start + i] == '\n');
            }
            if i > newline - start {
                assert(t[newline - start] != '\n');
            }
            assert(i == newline - start);
            assert(t.subrange(0, i) == v@.subrange(start as int, newline as int));
            if line_end < newline {
                assert(t.subrange(0, i).drop_last() =~= v@.subrange(start as int, line_end as int));
            }
        } else {
            if crate::text::has_char(t, '\n') {
                let j = choose|j: int| 0 <= j < t.len() && t[j] == '\n';
                assert(v@[start + j] == '\n');
            }
            assert(first_index_of(t, '\n') is None);
        }
    }
    line_end
}

/// The loopback endpoint a running container publishes, from `podman port` output: the
/// first line of the trimmed output must be `127.0.0.1:<port>`.
pub fn observed_endpoint(container_id: &str, output: &str) -> (r: Result<SocketAddress, ObserveContainerError>)
    ensures
        match loopback_port(first_line(trim(output@))) {
            Some(port) => r == Ok::<SocketAddress, ObserveContainerError>(
                SocketAddress { ip: IpAddress::V4(127, 0, 0, 1), port },
            ),
            None => r matches Err(ObserveContainerError::InvalidEndpoint { container_id: c, output: o })
                && c@ == container_id@ && o@ == trim(output@),
        },
{
    let v = chars_of(output);
    let (a, b) = trim_range(&v, 0, v.len());
    assert(v@.subrange(0, v@.len() as int) == v@);
    let ghost t = trim(output@);
    assert(t == v@.subrange(a as int, b as int));
    let line_end = first_line_end(&v, a, b);
    let ghost line = v@.subrange(a as int, line_end as int);
    let prefix: Vec<char> = vec!['1', '2', '7', '.', '0', '.', '0', '.', '1', ':'];
    proof {
        reveal_strlit("127.0.0.1:");
        assert(prefix@ =~= "127.0.0.1:"@);
    }
    let n = prefix.len();
    if line_end - a >= n && range_eq(&v, a, a + n, &prefix, 0, n) && line_end - (a + n) > 0
        && range_all_digits(&v, a + n, line_end) {
        proof {
            assert(prefix@.subrange(0, n as int) == prefix@);
            assert(line.subrange(0, n as int) == v@.subrange(a as int, a + n));
            assert(line.subrange(n as int, line.len() as int) == v@.subrange(a + n, line_end as int));
        }
        if let Some(port) = port_value(&v, a + n, line_end) {
            return Ok(SocketAddress { ip: IpAddress::V4(127, 0, 0, 1), port });
        }
    } else {
        proof {
            if starts_with(line, "127.0.0.1:"@) {
                assert(line.subrange(0, n as int) == v@.subrange(a as int, a + n));
                assert(prefix@.subrange(0, n as int) == prefix@);
                assert(line.subrange(n as int, line.len() as int) == v@.subrange(
                    a + n,
                    line_end as int,
                ));
            }
        }
    }
    Err(
        ObserveContainerError::InvalidEndpoint {
            container_id: container_id.to_owned(),
            output: string_from_range(&v, a, b),
        },
    )
}

/// What `observe_container` checks before asking Podman anything: a container ID, then a
/// nonzero port.
pub fn check_observation(container_id: &str, container_port: u16) -> (r: Result<
    (),
    ObserveContainerError,
>)
    ensures
        !container_id_text(container_id@) ==> r matches Err(ObserveContainerError::InvalidContainerId),
        container_id_text(container_id@) && container_port == 0 ==> r matches Err(
            ObserveContainerError::InvalidPort,
        ),
        container_id_text(container_id@) && container_port != 0 ==> r is Ok,
{
    if !is_container_id(container_id) {
        return Err(ObserveContainerError::InvalidContainerId);
    }
    if container_port == 0 {
        return Err(ObserveContainerError::InvalidPort);
    }
    Ok(())
}

/// A Podman failure while observing a container, with what Podman printed.
pub fn observation_failure(
    operation: &'static str,
    container_id: &str,
    stdout: String,
    stderr: String,
) -> (r: ObserveContainerError)
    ensures
        r matches ObserveContainerError::Podman { operation: o, container_id: c, stdout: out, stderr: err }
            && o == operation && c@ == container_id@ && out == stdout && err == stderr,
{
    ObserveContainerError::Podman { operation, container_id: container_id.to_owned(), stdout, stderr }
}

/// Whether the container exists, from how `podman container exists` ended: exit status
/// 1 means it is missing, any other failure is a Podman error.
pub fn container_existence(
    container_id: &str,
    exit_code: Option<i32>,
    succeeded: bool,
    stdout: String,
    stderr: String,
) -> (r: Result<bool, ObserveContainerError>)
    ensures
        exit_code == Some(1i32) ==> r == Ok::<bool, ObserveContainerError>(false),
        exit_code != Some(1i32) && succeeded ==> r == Ok::<bool, ObserveContainerError>(true),
        exit_code != Some(1i32) && !succeeded ==> (r matches Err(
            ObserveContainerError::Podman { operation: o, container_id: c, stdout: out, stderr: err },
        ) && o == "checking for" && c@ == container_id@ && out == stdout && err == stderr),
{
    if let Some(1) = exit_code {
        return Ok(false);
    }
    if !succeeded {
        return Err(observation_failure("checking for", container_id, stdout, stderr));
    }
    Ok(true)
}

/// Only a running container is asked where its port is published.
pub fn endpoint_is_observed(state: &ObservedRuntimeState) -> (r: bool)
    ensures
        r == (*state is Running),
{
    if let ObservedRuntimeState::Running = state {
        true
    } else {
        false
    }
}

/// `podman port <id> <port>/tcp`: where the container's TCP port is published.
pub fn endpoint_arguments(container_id: &str, container_port: u16) -> (r: Vec<String>)
    ensures
        texts(r@) == seq![
            "port"@,
            container_id@,
            crate::text::decimal(container_port as nat) + "/tcp"@,
        ],
{
    let mut port = String::new();
    push_decimal(&mut port, container_port as u64);
    push_str(&mut port, "/tcp");
    let mut arguments: Vec<String> = Vec::new();
    arguments.push("port".to_owned());
    arguments.push(container_id.to_owned());
    arguments.push(port);
    assert(texts(arguments@) =~= seq![
        "port"@,
        container_id@,
        crate::text::decimal(container_port as nat) + "/tcp"@,
    ]);
    arguments
}

/// The state a container reports from `podman inspect` output: the trimmed status,
/// which must not be empty.
pub fn inspected_state(container_id: &str, output: &str) -> (r: Result<
    ObservedRuntimeState,
    ObserveContainerError,
>)
    ensures
        trim(output@).len() == 0 ==> (r matches Err(ObserveContainerError::InvalidState { container_id: c })
            && c@ == container_id@),
        trim(output@).len() > 0 ==> r is Ok && match podman_state_known(trim(output@)) {
            Some(state) => r->Ok_0 == state,
            None => (r->Ok_0 matches ObservedRuntimeState::Unknown { status: s } && s@ == trim(output@)),
        },
{
    let status = trimmed(output);
    if status.as_str().is_empty() {
        return Err(ObserveContainerError::InvalidState { container_id: container_id.to_owned() });
    }
    Ok(observed_state(status.as_str()))
}

pub open spec fn invalid_port_message() -> Seq<char> {
    "container port must be between 1 and 65535"@
}

pub open spec fn invalid_container_id_message() -> Seq<char> {
    "container ID must be a non-empty hexadecimal value"@
}

impl CreateContainerError {
    pub fn message(&self) -> (r: String)
        ensures
            r@ == match *self {
                CreateContainerError::InvalidPort => invalid_port_message(),
                CreateContainerError::Execute { message } => "failed to execute Podman: "@ + message@,
                CreateContainerError::Create { name, stdout, stderr } =>
                    "failed to create container `"@ + name@ + "` with Podman: "@ + diagnostic_text(
                    stdout@,
                    stderr@,
                ),
                CreateContainerError::InvalidOutput { name } =>
                    "Podman returned an invalid ID for created container `"@ + name@ + "`"@,
            },
    {
        match self {
            CreateContainerError::InvalidPort => "container port must be between 1 and 65535".to_owned(),
            CreateContainerError::Execute { message } => {
                let mut out = "failed to execute Podman: ".to_owned();
                push_str(&mut out, message.as_str());
                out
            },
            CreateContainerError::Create { name, stdout, stderr } => {
                let mut out = "failed to create container `".to_owned();
                push_str(&mut out, name.as_str());
                push_str(&mut out, "` with Podman: ");
                let detail = diagnostic(stdout.as_str(), stderr.as_str());
                push_str(&mut out, detail.as_str());
                out
            },
            CreateContainerError::InvalidOutput { name } => {
                let mut out = "Podman returned an invalid ID for created container `".to_owned();
                push_str(&mut out, name.as_str());
                push_str(&mut out, "`");
                out
            },
        }
    }
}

fn operation_failure(
    prefix: &str,
    operation: &str,
    middle: &str,
    subject: &str,
    stdout: &str,
    stderr: &str,
) -> (r: String)
    ensures
        r@ == prefix@ + operation@ + middle@ + subject@ + "`: "@ + diagnostic_text(stdout@, stderr@),
{
    let mut out = prefix.to_owned();
    push_str(&mut out, operation);
    push_str(&mut out, middle);
    push_str(&mut out, subject);
    push_str(&mut out, "`: ");
    let detail = diagnostic(stdout, stderr);
    push_str(&mut out, detail.as_str());
    out
}

fn execute_failure(operation: &str, message: &str) -> (r: String)
    ensures
        r@ == "failed to execute Podman while "@ + operation@ + ": "@ + message@,
{
    let mut out = "failed to execute Podman while ".to_owned();
    push_str(&mut out, operation);
    push_str(&mut out, ": ");
    push_str(&mut out, message);
    out
}

impl ControlContainerError {
    pub fn message(&self) -> (r: String)
        ensures
            r@ == match *self {
                ControlContainerError::InvalidContainerId => invalid_container_id_message(),
                ControlContainerError::Execute { operation, message } =>
                    "failed to execute Podman while "@ + operation@ + ": "@ + message@,
                ControlContainerError::Podman { operation, container_id, stdout, stderr } =>
                    "Podman failed while "@ + operation@ + " container `"@ + container_id@ + "`: "@
                    + diagnostic_text(stdout@, stderr@),
            },
    {
        match self {
            ControlContainerError::InvalidContainerId => {
                "container ID must be a non-empty hexadecimal value".to_owned()
            },
            ControlContainerError::Execute { operation, message } => execute_failure(
                operation,
                message.as_str(),
            ),
            ControlContainerError::Podman { operation, container_id, stdout, stderr } => {
                operation_failure(
                    "Podman failed while ",
                    operation,
                    " container `",
                    container_id.as_str(),
                    stdout.as_str(),
                    stderr.as_str(),
                )
            },
        }
    }
}

impl ObserveContainerError {
    pub fn message(&self) -> (r: String)
        ensures
            r@ == match *self {
                ObserveContainerError::InvalidContainerId => invalid_container_id_message(),
                ObserveContainerError::InvalidPort => invalid_port_message(),
                ObserveContainerError::Execute { operation, message } =>
                    "failed to execute Podman while "@ + operation@ + ": "@ + message@,
                ObserveContainerError::Podman { operation, container_id, stdout, stderr } =>
                    "Podman failed while "@ + operation@ + " container `"@ + container_id@ + "`: "@
                    + diagnostic_text(stdout@, stderr@),
                ObserveContainerError::InvalidState { container_id } =>
                    "Podman returned an empty state for container `"@ + container_id@ + "`"@,
                ObserveContainerError::InvalidEndpoint { container_id, output } =>
                    "Podman returned an invalid loopback endpoint for container `"@ + container_id@
                    + "`: "@ + output@,
            },
    {
        match self {
            ObserveContainerError::InvalidContainerId => {
                "container ID must be a non-empty hexadecimal value".to_owned()
            },
            ObserveContainerError::InvalidPort => "container port must be between 1 and 65535".to_owned(),
            ObserveContainerError::Execute { operation, message } => execute_failure(
                operation,
                message.as_str(),
            ),
            ObserveContainerError::Podman { operation, container_id, stdout, stderr } => {
                operation_failure(
                    "Podman failed while ",
                    operation,
                    " container `",
                    container_id.as_str(),
                    stdout.as_str(),
                    stderr.as_str(),
                )
            },
            ObserveContainerError::InvalidState { container_id } => {
                let mut out = "Podman returned an empty state for container `".to_owned();
                push_str(&mut out, container_id.as_str());
                push_str(&mut out, "`");
                out
            },
            ObserveContainerError::InvalidEndpoint { container_id, output } => {
                let mut out = "Podman returned an invalid loopback endpoint for container `".to_owned();
                push_str(&mut out, container_id.as_str());
                push_str(&mut out, "`: ");
                push_str(&mut out, output.as_str());
                out
            },
        }
    }
}

} // verus!
