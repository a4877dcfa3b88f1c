//! The rule file as a value: which rules it lays on a commit message.

use crate::commit_msg::config::{BodyConfig, FooterConfig, ScopeConfig, SubjectConfig, TypeConfig};
use vstd::prelude::*;

verus! {

/// A whole rule file. A file without `rules` lays down nothing and cannot be
/// used to judge a message.
#[derive(Clone, Debug, PartialEq, Eq)]
pub struct CommitMsgRule {
    pub rules: Option<RuleSet>,
}

/// One optional rule for each field of a commit message. A rule that is
/// `None` is not applied; one that is `Some` is.
#[derive(Clone, Debug, PartialEq, Eq)]
pub struct RuleSet {
    pub type_rule: Option<TypeConfig>,
    pub scope: Option<ScopeConfig>,
    pub subject: Option<SubjectConfig>,
    pub body: Option<BodyConfig>,
    pub footer: Option<FooterConfig>,
}

/// A rule with a switch of its own, for rule files that name every rule and
/// turn each on or off.
#[derive(Clone, Debug, PartialEq, Eq)]
pub struct ValidationRule<T> {
    pub enabled: bool,
    pub config: T,
}

impl<T> ValidationRule<T> {
    /// The rule as a [`RuleSet`] holds it: the configuration where the rule
    /// is switched on, `None` where it is switched off.
    pub fn into_rule(self) -> (rule: Option<T>)
        ensures
            rule == (if self.enabled {
                Some(self.config)
            } else {
                None
            }),
    {
        if self.enabled {
            Some(self.config)
        } else {
            None
        }
    }
}

} // verus!
