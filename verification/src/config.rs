//! Single owner of the documented path configuration: each path has an environment
//! variable that overrides a fixed default, and an empty override counts as unset.

use vstd::prelude::*;

verus! {

pub const WORKSPACE_PATH_ENVIRONMENT_VARIABLE: &'static str = "PNEUMA_WORKSPACE_PATH";

pub const DEFAULT_WORKSPACE_PATH: &'static str = "/var/lib/pneuma/checkouts";

pub const CADDY_MANAGED_PATH_ENVIRONMENT_VARIABLE: &'static str = "PNEUMA_CADDY_MANAGED_PATH";

pub const DEFAULT_CADDY_MANAGED_PATH: &'static str = "/etc/caddy/applications";

pub const CADDYFILE_PATH_ENVIRONMENT_VARIABLE: &'static str = "PNEUMA_CADDYFILE_PATH";

pub const DEFAULT_CADDYFILE_PATH: &'static str = "/etc/caddy/Caddyfile";

/// The configured path: the override when it is present and nonempty, else the default.
pub open spec fn configured(value: Option<Seq<char>>, default: Seq<char>) -> Seq<char> {
    match value {
        Some(v) => if v.len() > 0 {
            v
        } else {
            default
        },
        None => default,
    }
}

/// Resolves an optional path override (the variable's value, if set), treating an
/// empty value as unset.
pub fn configured_path(value: Option<&str>, default: &str) -> (r: String)
    ensures
        r@ == configured(
            match value {
                Some(v) => Some(v@),
                None => None,
            },
            default@,
        ),
{
    match value {
        Some(path) => {
            if !path.is_empty() {
                return path.to_owned();
            }
        },
        None => {},
    }
    default.to_owned()
}

} // verus!
