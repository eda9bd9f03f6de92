//! Interface-neutral execution boundary: the command vocabulary, the host
//! configuration an executor owns, and the typed results and events of executed
//! commands. Presentation stays in the CLI and other adapters.

pub mod command;
pub mod diagnostics;
pub mod host;
pub mod outcome;
pub mod result;

pub use self::command::Command;
pub use self::host::HostConfiguration;
pub use self::result::CommandResult;

use vstd::prelude::*;

use crate::config::{
    configured, DEFAULT_CADDYFILE_PATH, DEFAULT_CADDY_MANAGED_PATH, DEFAULT_WORKSPACE_PATH,
};
use crate::control::host::optional_view;

verus! {

/// Executes commands against the configured host without presentation concerns.
pub struct ControlExecutor {
    host: HostConfiguration,
}

impl ControlExecutor {
    pub closed spec fn host_view(&self) -> HostConfiguration {
        self.host
    }

    /// Builds an executor over explicitly supplied host configuration.
    pub fn new(host: HostConfiguration) -> (r: Self)
        ensures
            r.host_view() == host,
    {
        ControlExecutor { host }
    }

    /// Builds an executor over the documented path variables' values and the
    /// database path the database layer resolved.
    pub fn from_environment(
        database_path: String,
        workspace: Option<&str>,
        caddy_managed: Option<&str>,
        caddyfile: Option<&str>,
    ) -> (r: Self)
        ensures
            r.host_view().database_path == database_path,
            r.host_view().workspace_path@ == configured(
                optional_view(workspace),
                DEFAULT_WORKSPACE_PATH@,
            ),
            r.host_view().caddy_managed_path@ == configured(
                optional_view(caddy_managed),
                DEFAULT_CADDY_MANAGED_PATH@,
            ),
            r.host_view().caddyfile_path@ == configured(
                optional_view(caddyfile),
                DEFAULT_CADDYFILE_PATH@,
            ),
    {
        Self::new(HostConfiguration::from_environment(database_path, workspace, caddy_managed, caddyfile))
    }

    pub fn host(&self) -> (r: &HostConfiguration)
        ensures
            *r == self.host_view(),
    {
        &self.host
    }
}

} // verus!
