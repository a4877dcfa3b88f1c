//! The run of all enabled rules over one commit message.

pub mod commit_msg_validate;

pub use commit_msg_validate::{validate_msg, Outcome, OutcomeModel, Report, ReportModel};
