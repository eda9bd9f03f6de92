//! Presentation logic of the command-line and terminal interfaces: argument
//! normalization, failure classes and exit codes, rendered text, deployment
//! progress, and the interactive interface's pure state.

pub mod output;
pub mod args;
pub mod error;
pub mod dispatch;
pub mod progress;
pub mod tui;
pub mod session;
pub mod panels;
