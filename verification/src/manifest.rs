//! The repository manifest (`pneuma.toml`): its schema as plain values and the
//! validation every parsed manifest must pass. Reading the file and decoding TOML
//! into these values is the caller's work.

use vstd::prelude::*;

use crate::domain::exposure::{is_valid_domain, valid_domain};
use crate::domain::git::{is_relative_manifest_path, relative_manifest_path};
use crate::domain::identity::{is_valid_catalog_name, valid_catalog_name};
use crate::text::{chars_of, char_is_whitespace, has_char, is_whitespace, push_decimal, push_str, trim};

verus! {

pub const SUPPORTED_SCHEMA_VERSION: u32 = 1;

pub const MANIFEST_FILE_NAME: &'static str = "pneuma.toml";

#[derive(Debug, PartialEq, Eq)]
pub struct Manifest {
    pub schema_version: u32,
    pub application: Application,
    pub source: Source,
    pub build: Build,
    pub runtime: Runtime,
    pub exposure: Exposure,
}

#[derive(Debug, PartialEq, Eq)]
pub struct Application {
    pub name: String,
}

#[derive(Debug, PartialEq, Eq)]
pub struct Source {
    pub repository: String,
    pub branch: String,
}

#[derive(Debug, PartialEq, Eq)]
pub struct Build {
    pub containerfile: String,
    pub context: String,
}

#[derive(Debug, PartialEq, Eq)]
pub struct Runtime {
    pub container_port: u16,
    pub healthcheck_path: String,
    pub expected_status: u16,
}

#[derive(Debug, PartialEq, Eq)]
pub struct Exposure {
    pub default_visibility: Visibility,
    pub domain: Option<String>,
}

#[derive(Debug, PartialEq, Eq)]
pub enum Visibility {
    Internal,
    Public,
}

/// Reading or decoding failures carry their cause's text.
#[derive(Debug)]
pub enum ManifestError {
    Read { path: String, message: String },
    Parse { message: String },
    UnsupportedSchemaVersion { found: u32 },
    InvalidField { field: &'static str, reason: &'static str },
}

impl ManifestError {
    pub fn message(&self) -> (r: String)
        ensures
            r@ == match *self {
                ManifestError::Read { path, message } => "failed to read manifest at "@ + path@
                    + ": "@ + message@,
                ManifestError::Parse { message } => "invalid manifest TOML: "@ + message@,
                ManifestError::UnsupportedSchemaVersion { found } => "unsupported schema_version "@
                    + crate::text::decimal(found as nat) + "; expected 1"@,
                ManifestError::InvalidField { field, reason } => "invalid manifest field `"@ + field@
                    + "`: "@ + reason@,
            },
    {
        match self {
            ManifestError::Read { path, message } => {
                let mut out = "failed to read manifest at ".to_owned();
                push_str(&mut out, path.as_str());
                push_str(&mut out, ": ");
                push_str(&mut out, message.as_str());
                out
            },
            ManifestError::Parse { message } => {
                let mut out = "invalid manifest TOML: ".to_owned();
                push_str(&mut out, message.as_str());
                out
            },
            ManifestError::UnsupportedSchemaVersion { found } => {
                let mut out = "unsupported schema_version ".to_owned();
                push_decimal(&mut out, *found as u64);
                push_str(&mut out, "; expected 1");
                out
            },
            ManifestError::InvalidField { field, reason } => {
                let mut out = "invalid manifest field `".to_owned();
                push_str(&mut out, field);
                push_str(&mut out, "`: ");
                push_str(&mut out, reason);
                out
            },
        }
    }
}

/// Non-empty with no surrounding whitespace.
pub open spec fn trimmed_nonempty(s: Seq<char>) -> bool {
    s.len() > 0 && trim(s) == s
}

fn is_trimmed_nonempty(value: &str) -> (r: bool)
    ensures
        r == trimmed_nonempty(value@),
{
    if value.is_empty() {
        return false;
    }
    let v = chars_of(value);
    let (a, b) = crate::text::trim_range(&v, 0, v.len());
    assert(v@.subrange(0, v@.len() as int) == v@);
    if a == 0 && b == v.len() {
        true
    } else {
        assert(trim(value@).len() != value@.len());
        false
    }
}

fn has_whitespace(value: &str) -> (r: bool)
    ensures
        r == exists|i: int| 0 <= i < value@.len() && is_whitespace(#[trigger] value@[i]),
{
    let v = chars_of(value);
    let mut i: usize = 0;
    while i < v.len()
        invariant
            i <= v@.len(),
            v@ == value@,
            forall|k: int| 0 <= k < i ==> !is_whitespace(#[trigger] v@[k]),
        decreases v@.len() - i,
    {
        if char_is_whitespace(v[i]) {
            return true;
        }
        i = i + 1;
    }
    false
}

/// An absolute HTTP path without whitespace.
pub open spec fn health_path_ok(s: Seq<char>) -> bool {
    s.len() > 0 && s[0] == '/' && !exists|i: int| 0 <= i < s.len() && is_whitespace(#[trigger] s[i])
}

/// A branch name: trimmed, non-empty, and without whitespace anywhere.
pub open spec fn branch_ok(s: Seq<char>) -> bool {
    trimmed_nonempty(s) && !exists|i: int| 0 <= i < s.len() && is_whitespace(#[trigger] s[i])
}

/// The first rule a manifest breaks, as (field, reason), or `None` when it passes.
pub open spec fn manifest_violation(manifest: Manifest) -> Option<(Seq<char>, Seq<char>)> {
    if !valid_catalog_name(manifest.application.name@) {
        Some(
            (
                "application.name"@,
                "must be 1-63 lowercase ASCII letters, digits, or hyphens and start and end with a letter or digit"@,
            ),
        )
    } else if !trimmed_nonempty(manifest.source.repository@) {
        Some(("source.repository"@, "must be non-empty and have no surrounding whitespace"@))
    } else if !branch_ok(manifest.source.branch@) {
        Some(("source.branch"@, "must be a non-empty branch name"@))
    } else if !relative_manifest_path(manifest.build.containerfile@) {
        Some(("build.containerfile"@, "must be a relative path confined to the checkout"@))
    } else if !relative_manifest_path(manifest.build.context@) {
        Some(("build.context"@, "must be a relative path confined to the checkout"@))
    } else if manifest.runtime.container_port == 0 {
        Some(("runtime.container_port"@, "must be between 1 and 65535"@))
    } else if !health_path_ok(manifest.runtime.healthcheck_path@) {
        Some(("runtime.healthcheck_path"@, "must be an absolute HTTP path without whitespace"@))
    } else if !(100 <= manifest.runtime.expected_status <= 599) {
        Some(("runtime.expected_status"@, "must be between 100 and 599"@))
    } else {
        match (manifest.exposure.default_visibility, manifest.exposure.domain) {
            (Visibility::Public, None) => Some(("exposure.domain"@, "is required for public exposure"@)),
            (_, Some(domain)) => if !valid_domain(domain@) {
                Some(("exposure.domain"@, "must be a valid domain name"@))
            } else {
                None
            },
            _ => None,
        }
    }
}

fn invalid_field(field: &'static str, reason: &'static str) -> (r: Result<(), ManifestError>)
    ensures
        r matches Err(ManifestError::InvalidField { field: f, reason: m }) && f == field && m == reason,
{
    Err(ManifestError::InvalidField { field, reason })
}

/// Checks a decoded manifest: the supported schema version first, then each field in
/// order; the first violation is reported.
pub fn validate_manifest(manifest: &Manifest) -> (r: Result<(), ManifestError>)
    ensures
        manifest.schema_version != SUPPORTED_SCHEMA_VERSION ==> (r matches Err(
            ManifestError::UnsupportedSchemaVersion { found },
        ) && found == manifest.schema_version),
        manifest.schema_version == SUPPORTED_SCHEMA_VERSION ==> match manifest_violation(*manifest) {
            Some((field, reason)) => (r matches Err(ManifestError::InvalidField { field: f, reason: m })
                && f@ == field && m@ == reason),
            None => r is Ok,
        },
{
    if manifest.schema_version != SUPPORTED_SCHEMA_VERSION {
        return Err(ManifestError::UnsupportedSchemaVersion { found: manifest.schema_version });
    }
    if !is_valid_catalog_name(manifest.application.name.as_str()) {
        return invalid_field(
            "application.name",
            "must be 1-63 lowercase ASCII letters, digits, or hyphens and start and end with a letter or digit",
        );
    }
    if !is_trimmed_nonempty(manifest.source.repository.as_str()) {
        return invalid_field(
            "source.repository",
            "must be non-empty and have no surrounding whitespace",
        );
    }
    if !is_trimmed_nonempty(manifest.source.branch.as_str()) || has_whitespace(
        manifest.source.branch.as_str(),
    ) {
        return invalid_field("source.branch", "must be a non-empty branch name");
    }
    if !is_relative_manifest_path(manifest.build.containerfile.as_str()) {
        return invalid_field("build.containerfile", "must be a relative path confined to the checkout");
    }
    if !is_relative_manifest_path(manifest.build.context.as_str()) {
        return invalid_field("build.context", "must be a relative path confined to the checkout");
    }
    if manifest.runtime.container_port == 0 {
        return invalid_field("runtime.container_port", "must be between 1 and 65535");
    }
    let path = manifest.runtime.healthcheck_path.as_str();
    let path_chars = chars_of(path);
    if path_chars.len() == 0 || path_chars[0] != '/' || has_whitespace(path) {
        return invalid_field(
            "runtime.healthcheck_path",
            "must be an absolute HTTP path without whitespace",
        );
    }
    if manifest.runtime.expected_status < 100 || manifest.runtime.expected_status > 599 {
        return invalid_field("runtime.expected_status", "must be between 100 and 599");
    }
    match (&manifest.exposure.default_visibility, &manifest.exposure.domain) {
        (Visibility::Public, None) => {
            return invalid_field("exposure.domain", "is required for public exposure");
        },
        (_, Some(domain)) => {
            if !is_valid_domain(domain.as_str()) {
                return invalid_field("exposure.domain", "must be a valid domain name");
            }
        },
        _ => {},
    }
    Ok(())
}

} // verus!
