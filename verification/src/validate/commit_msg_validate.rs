//! Runs the rules of a rule file over a commit message and gathers what
//! each validator found.
//!
//! The rules are tried in the order type, scope, subject. A rule that the
//! message breaks does not stop the run: the rules after it are still tried,
//! so that one run shows every fault of the message. A rule that is itself
//! unusable does stop it.

use crate::commit_msg::config::scope_config::{scope_verdict_with, scope_verdict_without};
use crate::commit_msg::config::subject_config::subject_verdict;
use crate::commit_msg::config::type_config::type_verdict;
use crate::commit_msg::{
    first_significant_line, get_commit_msg_first_line, CommitMsgRule, RuleSet, ScopeConfig,
    Verdict, VerdictModel,
};
use vstd::prelude::*;

verus! {

/// What each rule found. A verdict that is `None` belongs to a rule that did
/// not run: the rule file does not hold it, or an earlier rule was unusable.
#[derive(Clone, Debug, PartialEq, Eq)]
pub struct Report {
    pub type_verdict: Option<Verdict>,
    pub scope_verdict: Option<Verdict>,
    pub subject_verdict: Option<Verdict>,
}

/// A [`Report`] with its strings as sequences of codepoints.
pub ghost struct ReportModel {
    pub type_verdict: Option<VerdictModel>,
    pub scope_verdict: Option<VerdictModel>,
    pub subject_verdict: Option<VerdictModel>,
}

/// The result of a whole run.
#[derive(Clone, Debug, PartialEq, Eq)]
pub enum Outcome {
    /// The rule file holds no `rules`. No validator ran.
    NoRules,
    /// The message has no significant line. No validator ran.
    EmptyMessage,
    /// The validators ran and this is what they found.
    Evaluated(Report),
}

/// An [`Outcome`] with its strings as sequences of codepoints.
pub ghost enum OutcomeModel {
    NoRules,
    EmptyMessage,
    Evaluated(ReportModel),
}

/// The view of a verdict that may be absent.
pub open spec fn verdict_view(v: Option<Verdict>) -> Option<VerdictModel> {
    match v {
        Some(v) => Some(v@),
        None => None,
    }
}

impl View for Report {
    type V = ReportModel;

    open spec fn view(&self) -> ReportModel {
        ReportModel {
            type_verdict: verdict_view(self.type_verdict),
            scope_verdict: verdict_view(self.scope_verdict),
            subject_verdict: verdict_view(self.subject_verdict),
        }
    }
}

impl View for Outcome {
    type V = OutcomeModel;

    open spec fn view(&self) -> OutcomeModel {
        match *self {
            Outcome::NoRules => OutcomeModel::NoRules,
            Outcome::EmptyMessage => OutcomeModel::EmptyMessage,
            Outcome::Evaluated(r) => OutcomeModel::Evaluated(r@),
        }
    }
}

/// A verdict that is there and is not `Pass`.
pub open spec fn is_fault(v: Option<VerdictModel>) -> bool {
    v is Some && !(v->0 is Pass)
}

/// A verdict that is there and ends the run.
pub open spec fn stops_run(v: Option<VerdictModel>) -> bool {
    v is Some && v->0.is_fatal()
}

impl ReportModel {
    /// No rule that ran found a fault.
    pub open spec fn passed(self) -> bool {
        !is_fault(self.type_verdict) && !is_fault(self.scope_verdict) && !is_fault(
            self.subject_verdict,
        )
    }
}

impl OutcomeModel {
    /// The exit code that the run asks of the process: 0 where the
    /// validators ran and none found a fault, 1 in every other case.
    pub open spec fn exit_code(self) -> int {
        match self {
            OutcomeModel::Evaluated(r) => if r.passed() {
                0
            } else {
                1
            },
            _ => 1,
        }
    }
}

/// What the type rule of `rules` finds in `text`; `None` where there is no
/// type rule.
pub open spec fn type_step(rules: RuleSet, text: Seq<char>) -> Option<VerdictModel> {
    match rules.type_rule {
        Some(config) => Some(type_verdict(config.allowed(), config.allows_custom(), text)),
        None => None,
    }
}

/// What the scope rule of `rules` finds in `text`. With a list of allowed
/// scopes the scope is held against it; without one, and without any scope
/// rule, the syntax of the scope is still checked.
pub open spec fn scope_step(rules: RuleSet, text: Seq<char>) -> VerdictModel {
    if rules.scope is Some && rules.scope->0.allowed_scopes is Some {
        scope_verdict_with(rules.scope->0.allowed(), text)
    } else {
        scope_verdict_without(text)
    }
}

/// What the subject rule of `rules` finds in `text`; `None` where there is
/// no subject rule.
pub open spec fn subject_step(rules: RuleSet, text: Seq<char>) -> Option<VerdictModel> {
    match rules.subject {
        Some(config) => Some(
            subject_verdict(config.require_space(), config.min_len(), config.max_len(), text),
        ),
        None => None,
    }
}

/// The report of a run of `rules` over `text`: each rule in its turn, up to
/// and including the first that is unusable.
pub open spec fn report_of(rules: RuleSet, text: Seq<char>) -> ReportModel {
    let type_verdict = type_step(rules, text);
    let scope_verdict = if stops_run(type_verdict) {
        None
    } else {
        Some(scope_step(rules, text))
    };
    let subject_verdict = if stops_run(type_verdict) || stops_run(scope_verdict) {
        None
    } else {
        subject_step(rules, text)
    };
    ReportModel { type_verdict, scope_verdict, subject_verdict }
}

/// The outcome of a run of the rule file `rule` over the message `text`.
pub open spec fn outcome_of(rule: CommitMsgRule, text: Seq<char>) -> OutcomeModel {
    match rule.rules {
        None => OutcomeModel::NoRules,
        Some(rules) => if first_significant_line(text) is None {
            OutcomeModel::EmptyMessage
        } else {
            OutcomeModel::Evaluated(report_of(rules, text))
        },
    }
}

/// A message without a significant line is judged by no rule: the run ends
/// before any validator is tried and asks for exit code 1, whatever the rule
/// file holds.
pub proof fn law_empty_message_is_fatal(rule: CommitMsgRule, text: Seq<char>)
    requires
        first_significant_line(text) is None,
    ensures
        !(outcome_of(rule, text) is Evaluated),
        rule.rules is Some ==> outcome_of(rule, text) == OutcomeModel::EmptyMessage,
        outcome_of(rule, text).exit_code() == 1,
{
}

/// A validator that is handed a message without a significant line neither
/// passes nor fails it: its verdict ends the run.
pub proof fn law_empty_message_has_no_verdict(rules: RuleSet, text: Seq<char>)
    requires
        first_significant_line(text) is None,
    ensures
        type_step(rules, text) is Some ==> type_step(rules, text)->0.is_fatal(),
        scope_step(rules, text).is_fatal(),
        subject_step(rules, text) is Some ==> subject_step(rules, text)->0.is_fatal(),
{
}

/// A report speaks of a message that has a significant line: none of its
/// verdicts is `EmptyMessage`.
pub proof fn law_report_judges_a_line(rule: CommitMsgRule, text: Seq<char>)
    requires
        outcome_of(rule, text) is Evaluated,
    ensures
        outcome_of(rule, text)->Evaluated_0.type_verdict != Some(VerdictModel::EmptyMessage),
        outcome_of(rule, text)->Evaluated_0.scope_verdict != Some(VerdictModel::EmptyMessage),
        outcome_of(rule, text)->Evaluated_0.subject_verdict != Some(VerdictModel::EmptyMessage),
{
}

/// Faults add up: where the type rule and the subject rule both fail and the
/// scope rule is usable, the report holds both failures beside the verdict
/// on the scope, and the run asks for exit code 1.
pub proof fn law_every_failure_is_reported(rule: CommitMsgRule, text: Seq<char>)
    requires
        rule.rules is Some,
        type_step(rule.rules->0, text) is Some,
        type_step(rule.rules->0, text)->0 is Fail,
        subject_step(rule.rules->0, text) is Some,
        subject_step(rule.rules->0, text)->0 is Fail,
        !(scope_step(rule.rules->0, text) is ConfigError),
    ensures
        outcome_of(rule, text) is Evaluated,
        outcome_of(rule, text)->Evaluated_0.type_verdict == type_step(rule.rules->0, text),
        outcome_of(rule, text)->Evaluated_0.scope_verdict == Some(scope_step(rule.rules->0, text)),
        outcome_of(rule, text)->Evaluated_0.subject_verdict == subject_step(rule.rules->0, text),
        outcome_of(rule, text).exit_code() == 1,
{
}

/// A run asks for exit code 0 exactly if the validators ran and every rule
/// that ran passed; in every other case it asks for 1.
pub proof fn law_exit_code(rule: CommitMsgRule, text: Seq<char>)
    ensures
        outcome_of(rule, text).exit_code() == 0 || outcome_of(rule, text).exit_code() == 1,
        outcome_of(rule, text).exit_code() == 0 <==> {
            let r = outcome_of(rule, text)->Evaluated_0;
            &&& outcome_of(rule, text) is Evaluated
            &&& r.type_verdict is None || r.type_verdict == Some(VerdictModel::Pass)
            &&& r.scope_verdict == Some(VerdictModel::Pass)
            &&& r.subject_verdict is None || r.subject_verdict == Some(VerdictModel::Pass)
        },
{
}

/// Whether `v` is there and is not `Pass`.
fn verdict_is_fault(v: &Option<Verdict>) -> (b: bool)
    ensures
        b == is_fault(verdict_view(*v)),
{
    match v {
        Some(v) => !v.is_pass(),
        None => false,
    }
}

/// Whether `v` is there and ends the run.
fn verdict_stops_run(v: &Option<Verdict>) -> (b: bool)
    ensures
        b == stops_run(verdict_view(*v)),
{
    match v {
        Some(v) => v.is_fatal(),
        None => false,
    }
}

impl Report {
    /// Whether no rule that ran found a fault.
    pub fn passed(&self) -> (b: bool)
        ensures
            b == self@.passed(),
    {
        !verdict_is_fault(&self.type_verdict) && !verdict_is_fault(&self.scope_verdict)
            && !verdict_is_fault(&self.subject_verdict)
    }
}

impl Outcome {
    /// The exit code that the run asks of the process.
    pub fn exit_code(&self) -> (code: i32)
        ensures
            code == self@.exit_code(),
    {
        match self {
            Outcome::Evaluated(r) => if r.passed() {
                0
            } else {
                1
            },
            _ => 1,
        }
    }
}

/// Runs the rules of `rule` over `commit_msg`.
///
/// A rule file without rules and a message without a significant line end
/// the run before any validator is tried. Otherwise the type rule, the scope
/// rule and the subject rule are tried in this order, each only if the rule
/// file holds it; the syntax of the scope is checked even where it holds no
/// scope rule. The run goes on after a rule that the message breaks and ends
/// after one that is unusable.
pub fn validate_msg(commit_msg: &str, rule: &CommitMsgRule) -> (outcome: Outcome)
    ensures
        outcome@ == outcome_of(*rule, commit_msg@),
{
    let rules = match &rule.rules {
        Some(rules) => rules,
        None => {
            return Outcome::NoRules;
        },
    };
    if get_commit_msg_first_line(commit_msg).is_none() {
        return Outcome::EmptyMessage;
    }
    let type_verdict = match &rules.type_rule {
        Some(config) => Some(config.validate_type(commit_msg)),
        None => None,
    };
    if verdict_stops_run(&type_verdict) {
        return Outcome::Evaluated(Report { type_verdict, scope_verdict: None, subject_verdict: None });
    }
    let scope_verdict = match &rules.scope {
        Some(config) => match &config.allowed_scopes {
            Some(_) => Some(config.validate_scope_with_config(commit_msg)),
            None => Some(ScopeConfig::validate_scope_without_config(commit_msg)),
        },
        None => Some(ScopeConfig::validate_scope_without_config(commit_msg)),
    };
    if verdict_stops_run(&scope_verdict) {
        return Outcome::Evaluated(Report { type_verdict, scope_verdict, subject_verdict: None });
    }
    let subject_verdict = match &rules.subject {
        Some(config) => Some(config.validate_subject(commit_msg)),
        None => None,
    };
    Outcome::Evaluated(Report { type_verdict, scope_verdict, subject_verdict })
}

} // verus!
