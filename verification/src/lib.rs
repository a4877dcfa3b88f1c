//! Validation of git commit messages against a configurable
//! `type(scope)!: subject` grammar.
//!
//! A commit message is judged by its first significant line: the first line
//! that is neither blank nor a `#` comment. Three validators read that line,
//! one for each field of the grammar: the type before the `:`, the scope in
//! parentheses, and the subject after the `:`. Each returns a typed
//! [`commit_msg::Verdict`] and never prints or ends the process.
//! [`validate::validate_msg`] runs the ones that a rule file enables and
//! gathers their verdicts into one outcome with its exit code.
//!
//! Every function is specified over sequences of Unicode codepoints and
//! proved against that specification. What the rules mean as a whole is
//! stated as laws: public proof functions beside the validators.

pub mod cli;
pub mod commit_msg;
pub mod config;
pub mod install;
pub mod text;
pub mod util;
pub mod validate;
