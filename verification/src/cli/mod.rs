//! The commands of the hook tool, as values.

pub mod commit_msg_action;

pub use commit_msg_action::{validate_file_path, CommitMsgAction, Step};

use vstd::prelude::*;

verus! {

/// A parsed command line.
#[derive(Clone, Debug, PartialEq, Eq)]
pub struct Cli {
    pub command: Hooks,
}

/// The hooks that the tool knows.
#[derive(Clone, Debug, PartialEq, Eq)]
pub enum Hooks {
    /// The `commit-msg` hook, with what to do about it.
    CommitMsg { action: CommitMsgAction },
}

impl Cli {
    /// The steps that the command line asks for, in the order in which they
    /// are to be taken.
    pub fn steps(&self) -> (steps: Vec<Step>)
        ensures
            steps@ == self.command->action.plan(),
    {
        match &self.command {
            Hooks::CommitMsg { action } => action.steps(),
        }
    }
}

} // verus!
