# pneuma

Pneuma is a single-host deployment tool for containerized applications. This
crate holds its logic as a library verified with Verus: the domain model of
applications, releases, runtimes and deployments, the reconciliation decisions,
the host environment file, the Podman and Git argument lists and the reading of
their output, and the command line and terminal interface.

What this build does not include is the layer that executes commands: the
SQLite store, the health checks, the image builds and the systemd, Quadlet and
Caddy integration. So the `pneuma` command parses and validates its arguments,
applies the host environment, and then stops every command that needs that
layer with an error; the terminal interface runs, and every action it sends
comes back as an error. The Podman, Git and SQLite adapters in `app/` are
there for that layer to call, and so are the verified workflow state machines,
whose registration, health-check and promotion steps that layer performs.

## Layout

- `src/` is the verified library.
  - `domain/`: identities, Git references, releases, runtimes, systems,
    deployments and their status transitions, exposure, and the reconciliation
    decisions that compare intent with what a host observes.
  - `control/`: the commands an interface issues, their results, and host
    configuration.
  - `cli/`: argument normalization, error classes and exit codes, output text,
    deployment progress, and the terminal interface's state machine
    (`session.rs`), forms (`tui.rs`) and panels (`panels.rs`).
  - `host_environment.rs`, `local_runtime.rs`, `git_source.rs`,
    `create_deployment.rs`, `deploy_internal_revision.rs`,
    `promote_internal_candidate.rs`: parsing, validation and decisions of the
    host-facing steps. `deploy_internal_revision/candidate.rs` and
    `existing_runtime.rs` are the deployment workflows as state machines: from
    the state and what the last step reported, the next step, the progress to
    show, and the failure or result. The library never runs a process or touches a file: it
    builds the arguments of each Podman or Git invocation and interprets what
    came back.
- `app/` is ordinary Rust: `main`, the clap grammar, reading the host
  environment file, the Podman, Git and SQLite adapters (not yet called), and the
  crossterm and ratatui terminal loop that feeds key events to the verified
  session.
- `tests/` runs the library on concrete values.

Properties that span several calls are stated as public proof functions named
`lemma_*`, next to the functions they relate.
