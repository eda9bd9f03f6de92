//! Immutable host configuration captured once per executor.

use vstd::prelude::*;

use crate::config::{
    configured, configured_path, DEFAULT_CADDYFILE_PATH, DEFAULT_CADDY_MANAGED_PATH,
    DEFAULT_WORKSPACE_PATH,
};

verus! {

/// The host paths one executor works with.
#[derive(Debug, Clone, PartialEq, Eq)]
pub struct HostConfiguration {
    pub database_path: String,
    /// Workspace root for isolated import checkouts.
    pub workspace_path: String,
    /// Caddy route fragments managed by exposure and reconciliation commands.
    pub caddy_managed_path: String,
    /// Main Caddyfile the fragments are validated and reloaded against.
    pub caddyfile_path: String,
}

pub open spec fn optional_view(value: Option<&str>) -> Option<Seq<char>> {
    match value {
        Some(v) => Some(v@),
        None => None,
    }
}

impl HostConfiguration {
    /// Builds host configuration from explicit paths.
    pub fn new(
        database_path: String,
        workspace_path: String,
        caddy_managed_path: String,
        caddyfile_path: String,
    ) -> (r: Self)
        ensures
            r == (HostConfiguration {
                database_path,
                workspace_path,
                caddy_managed_path,
                caddyfile_path,
            }),
    {
        HostConfiguration { database_path, workspace_path, caddy_managed_path, caddyfile_path }
    }

    /// Resolves the documented `PNEUMA_WORKSPACE_PATH`, `PNEUMA_CADDY_MANAGED_PATH`,
    /// and `PNEUMA_CADDYFILE_PATH` values (as read from the environment) against their
    /// defaults, beside the database path the database layer resolved.
    pub fn from_environment(
        database_path: String,
        workspace: Option<&str>,
        caddy_managed: Option<&str>,
        caddyfile: Option<&str>,
    ) -> (r: Self)
        ensures
            r.database_path == database_path,
            r.workspace_path@ == configured(optional_view(workspace), DEFAULT_WORKSPACE_PATH@),
            r.caddy_managed_path@ == configured(
                optional_view(caddy_managed),
                DEFAULT_CADDY_MANAGED_PATH@,
            ),
            r.caddyfile_path@ == configured(optional_view(caddyfile), DEFAULT_CADDYFILE_PATH@),
    {
        Self::new(
            database_path,
            configured_path(workspace, DEFAULT_WORKSPACE_PATH),
            configured_path(caddy_managed, DEFAULT_CADDY_MANAGED_PATH),
            configured_path(caddyfile, DEFAULT_CADDYFILE_PATH),
        )
    }
}

} // verus!
