//! The commit message: its first significant line, the rules that can be
//! laid on it, and the verdicts of the validators.

pub mod commit_msg_rule;
pub mod config;
pub mod first_line;
pub mod names;
pub mod verdict;

pub use commit_msg_rule::{CommitMsgRule, RuleSet, ValidationRule};
pub use config::{BodyConfig, FooterConfig, ScopeConfig, SubjectConfig, TypeConfig};
pub use first_line::{
    first_significant_line, get_commit_msg_first_line, is_blank, is_comment, is_significant,
    significant_line_bounds,
};
pub use verdict::{ConfigFault, Failure, FailureModel, Verdict, VerdictModel};
