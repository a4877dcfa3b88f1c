//! What a validator returns.
//!
//! A validator never prints and never ends the process. It returns a
//! [`Verdict`], and whoever called it decides what to show and how to exit.

use vstd::prelude::*;

verus! {

/// Why a commit message breaks a rule.
#[derive(Clone, Debug, PartialEq, Eq)]
pub enum Failure {
    /// The line has no `:` that would end the type.
    MissingTypeSeparator,
    /// Nothing stands before the `:`.
    EmptyType,
    /// The type is not among the allowed types, or its scope parenthesis is
    /// empty or not closed. `found` is the type, without its `!` and its
    /// scope, where the type is not allowed, and the whole text before the
    /// `:` where the type is allowed and the parenthesis is at fault.
    TypeNotAllowed { found: String },
    /// No parenthesised scope stands before a `:`, though the rule asks for one.
    ScopeMissing,
    /// The scope starts with `)`.
    ScopeLeftParenMissing,
    /// The scope does not end with `)`.
    ScopeRightParenMissing,
    /// The scope is not among the allowed scopes.
    ScopeNotAllowed { found: String },
    /// The parentheses hold nothing.
    ScopeEmptyParens,
    /// The scope itself holds a parenthesis.
    ScopeRedundantParens,
    /// The line has no `:` that a subject could follow.
    SubjectMissing,
    /// A space must follow the `:` and does not.
    SubjectSpaceRequired,
    /// A space follows the `:` and must not.
    SubjectSpaceForbidden,
    /// The trimmed subject has `length` codepoints, which is under
    /// `min_length` or over `max_length`.
    SubjectLengthOutOfRange { length: usize, min_length: u8, max_length: u8 },
}

/// A [`Failure`] with its strings as sequences of codepoints.
pub ghost enum FailureModel {
    MissingTypeSeparator,
    EmptyType,
    TypeNotAllowed { found: Seq<char> },
    ScopeMissing,
    ScopeLeftParenMissing,
    ScopeRightParenMissing,
    ScopeNotAllowed { found: Seq<char> },
    ScopeEmptyParens,
    ScopeRedundantParens,
    SubjectMissing,
    SubjectSpaceRequired,
    SubjectSpaceForbidden,
    SubjectLengthOutOfRange { length: nat, min_length: u8, max_length: u8 },
}

impl View for Failure {
    type V = FailureModel;

    open spec fn view(&self) -> FailureModel {
        match *self {
            Failure::MissingTypeSeparator => FailureModel::MissingTypeSeparator,
            Failure::EmptyType => FailureModel::EmptyType,
            Failure::TypeNotAllowed { found } => FailureModel::TypeNotAllowed { found: found@ },
            Failure::ScopeMissing => FailureModel::ScopeMissing,
            Failure::ScopeLeftParenMissing => FailureModel::ScopeLeftParenMissing,
            Failure::ScopeRightParenMissing => FailureModel::ScopeRightParenMissing,
            Failure::ScopeNotAllowed { found } => FailureModel::ScopeNotAllowed { found: found@ },
            Failure::ScopeEmptyParens => FailureModel::ScopeEmptyParens,
            Failure::ScopeRedundantParens => FailureModel::ScopeRedundantParens,
            Failure::SubjectMissing => FailureModel::SubjectMissing,
            Failure::SubjectSpaceRequired => FailureModel::SubjectSpaceRequired,
            Failure::SubjectSpaceForbidden => FailureModel::SubjectSpaceForbidden,
            Failure::SubjectLengthOutOfRange { length, min_length, max_length } => {
                FailureModel::SubjectLengthOutOfRange {
                    length: length as nat,
                    min_length,
                    max_length,
                }
            },
        }
    }
}

/// Why a rule cannot be applied to any message.
#[derive(Clone, Copy, Debug, PartialEq, Eq)]
pub enum ConfigFault {
    /// The list of allowed types is missing or has no entry.
    AllowedTypesEmpty,
    /// Every allowed type is the empty string.
    AllowedTypesBlank,
    /// The list of allowed scopes is missing or has no entry.
    AllowedScopesEmpty,
    /// Every allowed scope is the empty string.
    AllowedScopesBlank,
}

/// The result of one validator on one commit message.
#[derive(Clone, Debug, PartialEq, Eq)]
pub enum Verdict {
    /// The message keeps the rule.
    Pass,
    /// The message breaks the rule. The other validators still have their say.
    Fail(Failure),
    /// The rule is unusable. No message can be judged by it.
    ConfigError(ConfigFault),
    /// The message has no significant line, so there is nothing to judge.
    EmptyMessage,
}

/// A [`Verdict`] with its strings as sequences of codepoints.
pub ghost enum VerdictModel {
    Pass,
    Fail(FailureModel),
    ConfigError(ConfigFault),
    EmptyMessage,
}

impl View for Verdict {
    type V = VerdictModel;

    open spec fn view(&self) -> VerdictModel {
        match *self {
            Verdict::Pass => VerdictModel::Pass,
            Verdict::Fail(f) => VerdictModel::Fail(f@),
            Verdict::ConfigError(c) => VerdictModel::ConfigError(c),
            Verdict::EmptyMessage => VerdictModel::EmptyMessage,
        }
    }
}

impl VerdictModel {
    /// The verdict ends the whole run: the rule is unusable or the message
    /// is empty.
    pub open spec fn is_fatal(self) -> bool {
        self is ConfigError || self is EmptyMessage
    }
}

impl Verdict {
    /// Whether the message keeps the rule.
    pub fn is_pass(&self) -> (b: bool)
        ensures
            b == (self@ is Pass),
    {
        match self {
            Verdict::Pass => true,
            _ => false,
        }
    }

    /// Whether the message breaks the rule.
    pub fn is_fail(&self) -> (b: bool)
        ensures
            b == (self@ is Fail),
    {
        match self {
            Verdict::Fail(_) => true,
            _ => false,
        }
    }

    /// Whether the verdict ends the whole run.
    pub fn is_fatal(&self) -> (b: bool)
        ensures
            b == self@.is_fatal(),
    {
        match self {
            Verdict::ConfigError(_) => true,
            Verdict::EmptyMessage => true,
            _ => false,
        }
    }
}

} // verus!
