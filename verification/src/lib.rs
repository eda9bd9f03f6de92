//! Pneuma: single-host deployment decisions for containerized applications.

pub mod cli;
pub mod config;
pub mod control;
pub mod domain;
pub mod text;
pub mod host_environment;
pub mod local_runtime;
pub mod create_deployment;
pub mod git_source;
pub mod list_deployments;
pub mod manifest;
pub mod promote_internal_candidate;
pub mod deploy_internal_revision;
