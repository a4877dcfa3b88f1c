//! The scope rule: the parenthesised segment between the type and the `:`.
//!
//! The scope token of a line starts at the first parenthesis of the line,
//! opening or closing, and runs up to the first `:` after it. A line without
//! a parenthesis, or without a `:` after its first parenthesis, has no scope
//! token.

use crate::commit_msg::first_line::{
    law_first_significant_line, lemma_lead_stays_significant, lemma_line_with_lead,
};
use crate::commit_msg::names::{
    all_empty, all_names_empty, contains_name, is_blank_list, is_missing, names_of,
};
use crate::commit_msg::verdict::{ConfigFault, Failure, FailureModel, Verdict, VerdictModel};
use crate::commit_msg::{first_significant_line, is_comment, significant_line_bounds};
use crate::text::{
    chars_of, find, find_from, first_from, first_of, free_of, lemma_first_from,
    lemma_first_from_is, lemma_first_of_contains, slice, CharClass,
};
use vstd::prelude::*;

verus! {

/// The scope rule. Where `allowed_scopes` is given, a message needs a scope
/// and the scope must be one of the list.
#[derive(Clone, Debug, PartialEq, Eq)]
pub struct ScopeConfig {
    pub allowed_scopes: Option<Vec<String>>,
}

/// The scope token of `line`, parentheses included, or `None` where the line
/// has none.
pub open spec fn scope_token(line: Seq<char>) -> Option<Seq<char>> {
    let p = first_of(line, CharClass::Paren);
    let c = first_from(line, CharClass::Exactly(':'), p);
    if p < line.len() && c < line.len() {
        Some(line.subrange(p, c))
    } else {
        None
    }
}

/// What stands between the first and the last character of `token`.
pub open spec fn scope_content(token: Seq<char>) -> Seq<char> {
    token.subrange(1, token.len() - 1)
}

/// The fault in the parentheses of a scope token, if it has one: the token
/// must start with `(` and end with `)`.
pub open spec fn paren_fault(token: Seq<char>) -> Option<FailureModel> {
    if token.len() == 0 || token[0] != '(' {
        Some(FailureModel::ScopeLeftParenMissing)
    } else if token.last() != ')' {
        Some(FailureModel::ScopeRightParenMissing)
    } else {
        None
    }
}

/// The verdict of the scope rule with a usable list of allowed scopes on a
/// significant line.
pub open spec fn scope_line_verdict_with(allowed: Seq<Seq<char>>, line: Seq<char>) -> VerdictModel {
    match scope_token(line) {
        None => VerdictModel::Fail(FailureModel::ScopeMissing),
        Some(token) => match paren_fault(token) {
            Some(fault) => VerdictModel::Fail(fault),
            None => if allowed.contains(scope_content(token)) {
                VerdictModel::Pass
            } else {
                VerdictModel::Fail(FailureModel::ScopeNotAllowed { found: scope_content(token) })
            },
        },
    }
}

/// The verdict of the scope rule with the list `allowed` on the message
/// `text`.
pub open spec fn scope_verdict_with(allowed: Option<Seq<Seq<char>>>, text: Seq<char>) -> VerdictModel {
    if is_missing(allowed) {
        VerdictModel::ConfigError(ConfigFault::AllowedScopesEmpty)
    } else if is_blank_list(allowed) {
        VerdictModel::ConfigError(ConfigFault::AllowedScopesBlank)
    } else {
        match first_significant_line(text) {
            None => VerdictModel::EmptyMessage,
            Some(line) => scope_line_verdict_with(allowed->0, line),
        }
    }
}

/// The verdict of the syntax check on a significant line: a line without a
/// scope token passes, and a scope token must be `(`, a content that is not
/// empty and holds no parenthesis, and `)`.
pub open spec fn scope_line_verdict_without(line: Seq<char>) -> VerdictModel {
    match scope_token(line) {
        None => VerdictModel::Pass,
        Some(token) => match paren_fault(token) {
            Some(fault) => VerdictModel::Fail(fault),
            None => if scope_content(token).len() == 0 {
                VerdictModel::Fail(FailureModel::ScopeEmptyParens)
            } else if scope_content(token).contains('(') || scope_content(token).contains(')') {
                VerdictModel::Fail(FailureModel::ScopeRedundantParens)
            } else {
                VerdictModel::Pass
            },
        },
    }
}

/// The verdict of the syntax check on the message `text`.
pub open spec fn scope_verdict_without(text: Seq<char>) -> VerdictModel {
    match first_significant_line(text) {
        None => VerdictModel::EmptyMessage,
        Some(line) => scope_line_verdict_without(line),
    }
}

/// A message made of `lead`, `token`, a `:` and `rest`, where `lead` holds no
/// parenthesis and no line feed and starts no comment, and `token` starts
/// with a parenthesis and holds neither `:` nor a line feed: the scope token
/// of its first significant line is `token`.
pub proof fn lemma_token_of_message(lead: Seq<char>, token: Seq<char>, rest: Seq<char>)
    requires
        free_of(lead, CharClass::Paren),
        free_of(lead, CharClass::Exactly('\n')),
        !is_comment(lead),
        token.len() > 0,
        CharClass::Paren.holds(token[0]),
        free_of(token, CharClass::Exactly(':')),
        free_of(token, CharClass::Exactly('\n')),
    ensures
        first_significant_line(lead + token + seq![':'] + rest) is Some,
        scope_token(first_significant_line(lead + token + seq![':'] + rest)->0) == Some(token),
{
    let start = lead + token + seq![':'];
    let n = lead.len() as int;
    let m = n + token.len();
    assert forall|j: int| 0 <= j < start.len() implies start[j] == (if j < n {
        lead[j]
    } else if j < m {
        token[j - n]
    } else {
        ':'
    }) by {}
    assert(start =~= lead + (token + seq![':']));
    lemma_lead_stays_significant(lead, token + seq![':']);
    assert forall|j: int| 0 <= j < start.len() implies !CharClass::Exactly('\n').holds(
        #[trigger] start[j],
    ) by {
        if j < n {
            assert(!CharClass::Exactly('\n').holds(lead[j]));
        } else if j < m {
            assert(!CharClass::Exactly('\n').holds(token[j - n]));
        }
    }
    lemma_line_with_lead(start, rest);
    let line = first_significant_line(start + rest)->0;
    assert forall|j: int| 0 <= j < start.len() implies line[j] == start[j] by {
        assert(line.take(start.len() as int)[j] == start[j]);
    }
    assert forall|j: int| 0 <= j < n implies !CharClass::Paren.holds(#[trigger] line[j]) by {
        assert(!CharClass::Paren.holds(lead[j]));
    }
    assert(line[n] == token[0]);
    lemma_first_from_is(line, CharClass::Paren, 0, n);
    assert forall|j: int| n <= j < m implies !CharClass::Exactly(':').holds(#[trigger] line[j]) by {
        assert(!CharClass::Exactly(':').holds(token[j - n]));
    }
    assert(line[m] == ':');
    lemma_first_from_is(line, CharClass::Exactly(':'), n, m);
    assert(line.subrange(n, m) =~= token);
}

/// A scope that is not balanced fails under both checks: where the scope
/// token of the message does not start with `(` or does not end with `)`,
/// neither check passes, whatever the list of allowed scopes holds and
/// whether there is one. The message is built as in
/// [`lemma_token_of_message`].
pub proof fn law_unbalanced_scope_fails(
    allowed: Option<Seq<Seq<char>>>,
    lead: Seq<char>,
    token: Seq<char>,
    rest: Seq<char>,
)
    requires
        free_of(lead, CharClass::Paren),
        free_of(lead, CharClass::Exactly('\n')),
        !is_comment(lead),
        token.len() > 0,
        CharClass::Paren.holds(token[0]),
        free_of(token, CharClass::Exactly(':')),
        free_of(token, CharClass::Exactly('\n')),
        token[0] != '(' || token.last() != ')',
    ensures
        !(scope_verdict_with(allowed, lead + token + seq![':'] + rest) is Pass),
        scope_verdict_without(lead + token + seq![':'] + rest) == VerdictModel::Fail(
            paren_fault(token)->0,
        ),
{
    lemma_token_of_message(lead, token, rest);
}

/// A balanced scope is judged by its content: for the message `lead`, `(`,
/// `scope`, `)`, `:`, `rest`, the check with a list passes exactly if the
/// list holds `scope` and is not made of empty strings only, and the check
/// without a list passes exactly if `scope` is not empty and holds no
/// parenthesis.
pub proof fn law_balanced_scope(
    allowed: Seq<Seq<char>>,
    lead: Seq<char>,
    scope: Seq<char>,
    rest: Seq<char>,
)
    requires
        free_of(lead, CharClass::Paren),
        free_of(lead, CharClass::Exactly('\n')),
        !is_comment(lead),
        free_of(scope, CharClass::Exactly(':')),
        free_of(scope, CharClass::Exactly('\n')),
    ensures
        scope_verdict_with(Some(allowed), lead + seq!['('] + scope + seq![')', ':'] + rest) is Pass
            <==> allowed.contains(scope) && !all_empty(allowed),
        scope_verdict_without(lead + seq!['('] + scope + seq![')', ':'] + rest) is Pass
            <==> scope.len() > 0 && free_of(scope, CharClass::Paren),
{
    let token = seq!['('] + scope + seq![')'];
    assert forall|j: int| 0 <= j < token.len() implies !CharClass::Exactly(':').holds(
        #[trigger] token[j],
    ) && !CharClass::Exactly('\n').holds(token[j]) by {
        if 1 <= j <= scope.len() {
            assert(token[j] == scope[j - 1]);
        }
    }
    lemma_token_of_message(lead, token, rest);
    assert(lead + seq!['('] + scope + seq![')', ':'] + rest =~= lead + token + seq![':'] + rest);
    assert(scope_content(token) =~= scope);
    if scope.contains('(') {
        let i = choose|i: int| 0 <= i < scope.len() && scope[i] == '(';
        assert(CharClass::Paren.holds(scope[i]));
    }
    if scope.contains(')') {
        let i = choose|i: int| 0 <= i < scope.len() && scope[i] == ')';
        assert(CharClass::Paren.holds(scope[i]));
    }
    if !free_of(scope, CharClass::Paren) {
        let i = choose|i: int| 0 <= i < scope.len() && CharClass::Paren.holds(#[trigger] scope[i]);
        assert(scope.contains(scope[i]));
    }
}

/// A message without any parenthesis names no scope. The check without a
/// list lets it pass; the check with a usable list, which asks for a scope,
/// does not.
pub proof fn law_absent_scope(allowed: Seq<Seq<char>>, text: Seq<char>)
    requires
        free_of(text, CharClass::Paren),
        first_significant_line(text) is Some,
    ensures
        scope_verdict_without(text) is Pass,
        allowed.len() > 0 && !all_empty(allowed) ==> scope_verdict_with(Some(allowed), text)
            == VerdictModel::Fail(FailureModel::ScopeMissing),
{
    let i = law_first_significant_line(text);
    let line = first_significant_line(text)->0;
    lemma_first_from(text, CharClass::Exactly('\n'), i);
    assert forall|j: int| 0 <= j < line.len() implies !CharClass::Paren.holds(#[trigger] line[j]) by {
        assert(line[j] == text[i + j]);
    }
    lemma_first_from_is(line, CharClass::Paren, 0, line.len() as int);
}

/// The bounds of the scope token of `line`: the place of the first
/// parenthesis of the line, and that of the first `:` after it.
pub fn scope_token_bounds(line: &Vec<char>) -> (r: Option<(usize, usize)>)
    ensures
        match r {
            Some((p, c)) => {
                &&& p < c < line.len()
                &&& p == first_of(line@, CharClass::Paren)
                &&& c == first_from(line@, CharClass::Exactly(':'), p as int)
                &&& scope_token(line@) == Some(line@.subrange(p as int, c as int))
            },
            None => scope_token(line@) is None,
        },
{
    let p: usize = find(line, CharClass::Paren);
    if p == line.len() {
        return None;
    }
    let c: usize = find_from(line, CharClass::Exactly(':'), p);
    if c == line.len() {
        return None;
    }
    proof {
        lemma_first_from(line@, CharClass::Paren, 0);
        lemma_first_from(line@, CharClass::Exactly(':'), p as int);
    }
    Some((p, c))
}

/// The fault in the parentheses of `token`, if it has one.
pub fn token_paren_fault(token: &Vec<char>) -> (r: Option<Failure>)
    ensures
        match r {
            Some(f) => paren_fault(token@) == Some(f@),
            None => paren_fault(token@) is None && token.len() >= 2,
        },
{
    if token.len() == 0 || token[0] != '(' {
        Some(Failure::ScopeLeftParenMissing)
    } else if token[token.len() - 1] != ')' {
        Some(Failure::ScopeRightParenMissing)
    } else {
        None
    }
}

impl ScopeConfig {
    /// The allowed scopes as sequences of codepoints.
    pub open spec fn allowed(&self) -> Option<Seq<Seq<char>>> {
        names_of(self.allowed_scopes)
    }

    /// Judges the scope of `commit_msg` by the list of allowed scopes.
    ///
    /// A missing or empty list, or one of empty strings only, is a
    /// configuration error whatever the message holds. Otherwise the first
    /// significant line needs a scope token that starts with `(` and ends
    /// with `)`, and what stands between the two must be one of the list.
    pub fn validate_scope_with_config(&self, commit_msg: &str) -> (v: Verdict)
        ensures
            v@ == scope_verdict_with(self.allowed(), commit_msg@),
    {
        let list = match &self.allowed_scopes {
            Some(list) => list,
            None => {
                return Verdict::ConfigError(ConfigFault::AllowedScopesEmpty);
            },
        };
        if list.len() == 0 {
            return Verdict::ConfigError(ConfigFault::AllowedScopesEmpty);
        }
        if all_names_empty(list) {
            return Verdict::ConfigError(ConfigFault::AllowedScopesBlank);
        }
        let text = chars_of(commit_msg);
        let (a, b) = match significant_line_bounds(&text) {
            Some(bounds) => bounds,
            None => {
                return Verdict::EmptyMessage;
            },
        };
        let line = slice(&text, a, b);
        let (p, c) = match scope_token_bounds(&line) {
            Some(bounds) => bounds,
            None => {
                return Verdict::Fail(Failure::ScopeMissing);
            },
        };
        let token = slice(&line, p, c);
        match token_paren_fault(&token) {
            Some(fault) => {
                return Verdict::Fail(fault);
            },
            None => {},
        }
        let scope = commit_msg.substring_char(a + p + 1, a + c - 1).to_owned();
        proof {
            assert(scope@ =~= scope_content(token@));
        }
        if contains_name(list, &scope) {
            Verdict::Pass
        } else {
            Verdict::Fail(Failure::ScopeNotAllowed { found: scope })
        }
    }

    /// Judges the syntax of the scope of `commit_msg`, with no list of
    /// allowed scopes.
    ///
    /// A first significant line without a scope token passes. A scope token
    /// must start with `(` and end with `)`, and what stands between the two
    /// must not be empty and must hold no further parenthesis.
    pub fn validate_scope_without_config(commit_msg: &str) -> (v: Verdict)
        ensures
            v@ == scope_verdict_without(commit_msg@),
    {
        let text = chars_of(commit_msg);
        let (a, b) = match significant_line_bounds(&text) {
            Some(bounds) => bounds,
            None => {
                return Verdict::EmptyMessage;
            },
        };
        let line = slice(&text, a, b);
        let (p, c) = match scope_token_bounds(&line) {
            Some(bounds) => bounds,
            None => {
                return Verdict::Pass;
            },
        };
        let token = slice(&line, p, c);
        match token_paren_fault(&token) {
            Some(fault) => {
                return Verdict::Fail(fault);
            },
            None => {},
        }
        let content = slice(&token, 1, token.len() - 1);
        if content.len() == 0 {
            return Verdict::Fail(Failure::ScopeEmptyParens);
        }
        proof {
            lemma_first_of_contains(content@, '(');
            lemma_first_of_contains(content@, ')');
        }
        if find(&content, CharClass::Exactly('(')) < content.len() || find(
            &content,
            CharClass::Exactly(')'),
        ) < content.len() {
            return Verdict::Fail(Failure::ScopeRedundantParens);
        }
        Verdict::Pass
    }
}

} // verus!
