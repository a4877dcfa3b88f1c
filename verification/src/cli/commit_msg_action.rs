//! What can be done about the `commit-msg` hook.

use vstd::prelude::*;

verus! {

/// An action on the `commit-msg` hook.
#[derive(Clone, Debug, PartialEq, Eq)]
pub enum CommitMsgAction {
    /// Write the rule file into the project's root directory.
    Init,
    /// Install the hook into the repository's hooks directory.
    Install,
    /// Install the hook, then write the rule file.
    II,
    /// Hold the commit message at `msg_path` against the rules at `rule_path`.
    Validate { msg_path: String, rule_path: String },
    /// Remove the hook from the repository's hooks directory.
    Uninstall,
}

/// One thing for the program to do.
#[derive(Clone, Copy, Debug, PartialEq, Eq)]
pub enum Step {
    WriteRuleFile,
    InstallHook,
    RemoveHook,
    ValidateMessage,
}

impl CommitMsgAction {
    /// The steps that make up the action, in order.
    pub open spec fn plan(self) -> Seq<Step> {
        match self {
            CommitMsgAction::Init => seq![Step::WriteRuleFile],
            CommitMsgAction::Install => seq![Step::InstallHook],
            CommitMsgAction::II => seq![Step::InstallHook, Step::WriteRuleFile],
            CommitMsgAction::Validate { .. } => seq![Step::ValidateMessage],
            CommitMsgAction::Uninstall => seq![Step::RemoveHook],
        }
    }

    /// The steps that make up the action, in order.
    pub fn steps(&self) -> (steps: Vec<Step>)
        ensures
            steps@ == self.plan(),
    {
        let mut steps: Vec<Step> = Vec::new();
        match self {
            CommitMsgAction::Init => {
                steps.push(Step::WriteRuleFile);
            },
            CommitMsgAction::Install => {
                steps.push(Step::InstallHook);
            },
            CommitMsgAction::II => {
                steps.push(Step::InstallHook);
                steps.push(Step::WriteRuleFile);
            },
            CommitMsgAction::Validate { .. } => {
                steps.push(Step::ValidateMessage);
            },
            CommitMsgAction::Uninstall => {
                steps.push(Step::RemoveHook);
            },
        }
        proof {
            assert(steps@ =~= self.plan());
        }
        steps
    }
}

/// The text that tells of a path that leads to no file.
pub open spec fn missing_file_message(path: Seq<char>) -> Seq<char> {
    "File "@ + path + " does not exist!"@
}

/// Accepts the path `s` of an input file, given whether a file `exists`
/// there: the path itself where one does, and the text of
/// [`missing_file_message`] as the error where none does.
pub fn validate_file_path(s: &str, exists: bool) -> (r: Result<String, String>)
    ensures
        exists ==> r is Ok && r->Ok_0@ == s@,
        !exists ==> r is Err && r->Err_0@ == missing_file_message(s@),
{
    if exists {
        Ok(s.to_owned())
    } else {
        let mut message = "File ".to_owned();
        message.append(s);
        message.append(" does not exist!");
        Err(message)
    }
}

} // verus!
