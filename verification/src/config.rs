//! Names that the library shares with the programs around it.

use vstd::prelude::*;

verus! {

/// The name of the rule file in a project's root directory.
pub const COMMIT_MSG_RULE_NAME: &'static str = ".commit-msg-rule.yaml";

} // verus!
