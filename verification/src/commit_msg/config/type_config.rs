//! The type rule: the token before the `:`, with its optional `!` and its
//! optional parenthesised scope.
//!
//! The type that a message declares is what stands before the first `(` of
//! that token, or the whole token where it has none, without one `!` at its
//! end. It is held against the list of allowed types whether or not a scope
//! follows it.

use crate::commit_msg::first_line::{lemma_lead_stays_significant, lemma_line_with_lead};
use crate::commit_msg::names::{
    all_empty, all_names_empty, contains_name, is_blank_list, is_missing, names_of,
};
use crate::commit_msg::verdict::{ConfigFault, Failure, FailureModel, Verdict, VerdictModel};
use crate::commit_msg::{first_significant_line, is_comment, significant_line_bounds};
use crate::text::{
    chars_of, find, first_of, free_of, lemma_first_from_is, lemma_first_of_contains, slice,
    CharClass,
};
use vstd::prelude::*;

verus! {

/// The type rule. `allowed_types` lists the types a message may declare;
/// `allow_custom_types`, where it is `Some(true)`, lets every type pass.
#[derive(Clone, Debug, PartialEq, Eq)]
pub struct TypeConfig {
    pub allowed_types: Option<Vec<String>>,
    pub allow_custom_types: Option<bool>,
}

/// `head` without one `!` at its end, if it has one: the type without its
/// breaking-change marker.
pub open spec fn base_type(head: Seq<char>) -> Seq<char> {
    if head.len() > 0 && head.last() == '!' {
        head.drop_last()
    } else {
        head
    }
}

/// The type that a head declares: what stands before its first `(`, or the
/// whole head where it has none, without one `!` at its end.
pub open spec fn declared_type(head: Seq<char>) -> Seq<char> {
    base_type(head.take(first_of(head, CharClass::Exactly('('))))
}

/// What a head with one `(` must hold after it: something, more than a lone
/// `)`, and a `)` somewhere.
pub open spec fn scope_tail_closed(tail: Seq<char>) -> bool {
    tail.len() > 0 && tail != seq![')'] && tail.contains(')')
}

/// The verdict on a head, the text before the first `:`, that is not empty.
///
/// The type that the head declares must be an allowed type, with or without
/// a scope behind it. A head with exactly one `(` must also go on after it
/// with more than a lone `)` and hold a `)`. The failure names the declared
/// type where that is not allowed, and the whole head where the type is
/// allowed and the parenthesis is at fault.
pub open spec fn head_verdict(allowed: Seq<Seq<char>>, head: Seq<char>) -> VerdictModel {
    let p = first_of(head, CharClass::Exactly('('));
    let tail = head.skip(p + 1);
    if !allowed.contains(declared_type(head)) {
        VerdictModel::Fail(FailureModel::TypeNotAllowed { found: declared_type(head) })
    } else if p == head.len() || tail.contains('(') || scope_tail_closed(tail) {
        VerdictModel::Pass
    } else {
        VerdictModel::Fail(FailureModel::TypeNotAllowed { found: head })
    }
}

/// The verdict of the type rule on a significant line.
pub open spec fn type_line_verdict(
    allowed: Seq<Seq<char>>,
    allow_custom: bool,
    line: Seq<char>,
) -> VerdictModel {
    let c = first_of(line, CharClass::Exactly(':'));
    if c == line.len() {
        VerdictModel::Fail(FailureModel::MissingTypeSeparator)
    } else if c == 0 {
        VerdictModel::Fail(FailureModel::EmptyType)
    } else if allow_custom {
        VerdictModel::Pass
    } else {
        head_verdict(allowed, line.take(c))
    }
}

/// The verdict of the type rule, with the list `allowed` and the escape
/// hatch `allow_custom`, on the message `text`.
pub open spec fn type_verdict(
    allowed: Option<Seq<Seq<char>>>,
    allow_custom: bool,
    text: Seq<char>,
) -> VerdictModel {
    if !allow_custom && is_missing(allowed) {
        VerdictModel::ConfigError(ConfigFault::AllowedTypesEmpty)
    } else if !allow_custom && is_blank_list(allowed) {
        VerdictModel::ConfigError(ConfigFault::AllowedTypesBlank)
    } else {
        match first_significant_line(text) {
            None => VerdictModel::EmptyMessage,
            Some(line) => type_line_verdict(
                match allowed {
                    Some(a) => a,
                    None => Seq::empty(),
                },
                allow_custom,
                line,
            ),
        }
    }
}

/// A message that starts with `head` and a `:`, where `head` holds neither
/// `:` nor a line feed and does not start a comment: its first significant
/// line is its first line, and the text before the first `:` of that line is
/// `head`.
pub proof fn lemma_head_of_message(head: Seq<char>, rest: Seq<char>)
    requires
        free_of(head, CharClass::Exactly(':')),
        free_of(head, CharClass::Exactly('\n')),
        !is_comment(head),
    ensures
        first_significant_line(head + seq![':'] + rest) is Some,
        ({
            let line = first_significant_line(head + seq![':'] + rest)->0;
            &&& first_of(line, CharClass::Exactly(':')) == head.len()
            &&& head.len() < line.len()
            &&& line.take(head.len() as int) == head
        }),
{
    let lead = head + seq![':'];
    lemma_lead_stays_significant(head, seq![':']);
    assert forall|j: int| 0 <= j < lead.len() implies !CharClass::Exactly('\n').holds(
        #[trigger] lead[j],
    ) by {
        if j < head.len() {
            assert(lead[j] == head[j]);
        }
    }
    lemma_line_with_lead(lead, rest);
    let text = lead + rest;
    assert(text =~= head + seq![':'] + rest);
    let line = first_significant_line(text)->0;
    assert(line.take(head.len() as int) =~= lead.take(head.len() as int)) by {
        assert(line.take(lead.len() as int) == lead);
        assert forall|j: int| 0 <= j < head.len() implies line.take(head.len() as int)[j]
            == lead.take(head.len() as int)[j] by {
            assert(line.take(lead.len() as int)[j] == lead[j]);
        }
    }
    assert(lead.take(head.len() as int) =~= head);
    assert(line[head.len() as int] == ':') by {
        assert(line.take(lead.len() as int)[head.len() as int] == lead[head.len() as int]);
    }
    assert forall|j: int| 0 <= j < head.len() implies !CharClass::Exactly(':').holds(
        #[trigger] line[j],
    ) by {
        assert(line.take(head.len() as int)[j] == head[j]);
    }
    lemma_first_from_is(line, CharClass::Exactly(':'), 0, head.len() as int);
}

/// A type as it is written: not empty, on one line, without `:` and `(`,
/// and not the start of a comment.
pub open spec fn is_plain_type(t: Seq<char>) -> bool {
    &&& t.len() > 0
    &&& free_of(t, CharClass::Exactly(':'))
    &&& free_of(t, CharClass::Exactly('('))
    &&& free_of(t, CharClass::Exactly('\n'))
    &&& !is_comment(t)
}

/// The verdict on a head without `(`: the head less its `!` is held against
/// the list.
proof fn lemma_head_without_scope(allowed: Seq<Seq<char>>, head: Seq<char>)
    requires
        free_of(head, CharClass::Exactly('(')),
    ensures
        declared_type(head) == base_type(head),
        head_verdict(allowed, head) == (if allowed.contains(base_type(head)) {
            VerdictModel::Pass
        } else {
            VerdictModel::Fail(FailureModel::TypeNotAllowed { found: base_type(head) })
        }),
{
    lemma_first_from_is(head, CharClass::Exactly('('), 0, head.len() as int);
    assert(head.take(head.len() as int) =~= head);
}

/// A list that holds a name that is not empty is neither missing nor blank.
proof fn lemma_list_with_name_is_usable(allowed: Seq<Seq<char>>, name: Seq<char>)
    requires
        allowed.contains(name),
        name.len() > 0,
    ensures
        !is_missing(Some(allowed)),
        !is_blank_list(Some(allowed)),
{
    let i = choose|i: int| 0 <= i < allowed.len() && allowed[i] == name;
    assert(allowed[i].len() > 0);
}

/// An allowed type passes: where `t` is a plain type without `!` at its end
/// and stands in the list, the message `t`, `": "`, `s` passes for every `s`.
pub proof fn law_allowed_type_passes(
    allowed: Seq<Seq<char>>,
    allow_custom: bool,
    t: Seq<char>,
    s: Seq<char>,
)
    requires
        is_plain_type(t),
        t.last() != '!',
        allowed.contains(t),
    ensures
        type_verdict(Some(allowed), allow_custom, t + seq![':', ' '] + s) is Pass,
{
    lemma_list_with_name_is_usable(allowed, t);
    lemma_head_of_message(t, seq![' '] + s);
    assert(t + seq![':', ' '] + s =~= t + seq![':'] + (seq![' '] + s));
    lemma_head_without_scope(allowed, t);
}

/// A type that is not allowed fails: where `t` holds no `:`, `(` or line
/// feed, has no `!` at its end, starts no comment and does not stand in the
/// list, the message `t`, `": "`, `s` does not pass, whatever `s` is. Where
/// the list is usable and `t` is not empty, the failure names `t`.
pub proof fn law_unlisted_type_fails(allowed: Option<Seq<Seq<char>>>, t: Seq<char>, s: Seq<char>)
    requires
        free_of(t, CharClass::Exactly(':')),
        free_of(t, CharClass::Exactly('(')),
        free_of(t, CharClass::Exactly('\n')),
        !is_comment(t),
        t.len() > 0 ==> t.last() != '!',
        allowed is Some ==> !allowed->0.contains(t),
    ensures
        !(type_verdict(allowed, false, t + seq![':', ' '] + s) is Pass),
        t.len() > 0 && !is_missing(allowed) && !is_blank_list(allowed) ==> type_verdict(
            allowed,
            false,
            t + seq![':', ' '] + s,
        ) == VerdictModel::Fail(FailureModel::TypeNotAllowed { found: t }),
{
    lemma_head_of_message(t, seq![' '] + s);
    assert(t + seq![':', ' '] + s =~= t + seq![':'] + (seq![' '] + s));
    if allowed is Some {
        lemma_head_without_scope(allowed->0, t);
    }
}

/// No scope and no marker lets an unlisted type through: where the type
/// that `head` declares does not stand in the list, the message `head`,
/// `:`, `s` does not pass, whatever stands behind the type in `head` and
/// whatever `s` is.
pub proof fn law_declared_type_must_be_allowed(
    allowed: Option<Seq<Seq<char>>>,
    head: Seq<char>,
    s: Seq<char>,
)
    requires
        free_of(head, CharClass::Exactly(':')),
        free_of(head, CharClass::Exactly('\n')),
        !is_comment(head),
        allowed is Some ==> !allowed->0.contains(declared_type(head)),
    ensures
        !(type_verdict(allowed, false, head + seq![':'] + s) is Pass),
        head.len() > 0 && !is_missing(allowed) && !is_blank_list(allowed) ==> type_verdict(
            allowed,
            false,
            head + seq![':'] + s,
        ) == VerdictModel::Fail(FailureModel::TypeNotAllowed { found: declared_type(head) }),
{
    lemma_head_of_message(head, s);
}

/// The breaking-change marker is no part of the type: where `t` is a plain
/// type, the message `t`, `"!:"`, `s` passes exactly if `t` is allowed.
pub proof fn law_breaking_marker(allowed: Seq<Seq<char>>, t: Seq<char>, s: Seq<char>)
    requires
        is_plain_type(t),
    ensures
        type_verdict(Some(allowed), false, t + seq!['!', ':'] + s) is Pass <==> allowed.contains(t),
{
    let head = t + seq!['!'];
    assert forall|j: int| 0 <= j < head.len() implies !CharClass::Exactly(':').holds(
        #[trigger] head[j],
    ) && !CharClass::Exactly('\n').holds(head[j]) && !CharClass::Exactly('(').holds(head[j]) by {
        if j < t.len() {
            assert(head[j] == t[j]);
        }
    }
    lemma_lead_stays_significant(t, seq!['!']);
    lemma_head_of_message(head, s);
    assert(t + seq!['!', ':'] + s =~= head + seq![':'] + s);
    lemma_head_without_scope(allowed, head);
    assert(base_type(head) =~= t);
    if allowed.contains(t) {
        lemma_list_with_name_is_usable(allowed, t);
    }
}

/// A type with a scope behind it is held against the list like any other,
/// and the scope must be closed: with a usable list, the message `t`, `(`,
/// `tail`, `:`, `s` passes exactly if `t` less one `!` at its end is an
/// allowed type and `tail` is more than a lone `)` and holds a `)`. Where
/// the type is not allowed the failure names it; where the type is allowed
/// and the scope is not closed the failure names the whole head.
pub proof fn law_type_with_scope(
    allowed: Seq<Seq<char>>,
    t: Seq<char>,
    tail: Seq<char>,
    s: Seq<char>,
)
    requires
        allowed.len() > 0,
        !all_empty(allowed),
        free_of(t, CharClass::Exactly(':')),
        free_of(t, CharClass::Exactly('(')),
        free_of(t, CharClass::Exactly('\n')),
        !is_comment(t),
        free_of(tail, CharClass::Exactly(':')),
        free_of(tail, CharClass::Exactly('(')),
        free_of(tail, CharClass::Exactly('\n')),
    ensures
        ({
            let verdict = type_verdict(
                Some(allowed),
                false,
                t + seq!['('] + tail + seq![':'] + s,
            );
            &&& verdict is Pass <==> allowed.contains(base_type(t)) && scope_tail_closed(tail)
            &&& !allowed.contains(base_type(t)) ==> verdict == VerdictModel::Fail(
                FailureModel::TypeNotAllowed { found: base_type(t) },
            )
            &&& allowed.contains(base_type(t)) && !scope_tail_closed(tail) ==> verdict
                == VerdictModel::Fail(
                FailureModel::TypeNotAllowed { found: t + seq!['('] + tail },
            )
        }),
{
    let head = t + seq!['('] + tail;
    let n = t.len() as int;
    assert forall|j: int| 0 <= j < head.len() implies head[j] == (if j < n {
        t[j]
    } else if j == n {
        '('
    } else {
        tail[j - n - 1]
    }) by {}
    assert forall|j: int| 0 <= j < head.len() implies !CharClass::Exactly(':').holds(
        #[trigger] head[j],
    ) && !CharClass::Exactly('\n').holds(head[j]) by {
        if j < n {
            assert(!CharClass::Exactly(':').holds(t[j]));
            assert(!CharClass::Exactly('\n').holds(t[j]));
        } else if j > n {
            assert(!CharClass::Exactly(':').holds(tail[j - n - 1]));
            assert(!CharClass::Exactly('\n').holds(tail[j - n - 1]));
        }
    }
    assert(head =~= t + (seq!['('] + tail));
    lemma_lead_stays_significant(t, seq!['('] + tail);
    lemma_head_of_message(head, s);
    assert forall|j: int| 0 <= j < n implies !CharClass::Exactly('(').holds(#[trigger] head[j]) by {
        assert(!CharClass::Exactly('(').holds(t[j]));
    }
    lemma_first_from_is(head, CharClass::Exactly('('), 0, n);
    assert(head.take(n) =~= t);
    assert(head.skip(n + 1) =~= tail);
    if tail.contains('(') {
        let i = choose|i: int| 0 <= i < tail.len() && tail[i] == '(';
        assert(CharClass::Exactly('(').holds(tail[i]));
    }
}

/// With custom types allowed the list is not consulted: a message that
/// starts with a head that is not empty and a `:` passes, whatever the list
/// holds and whether there is one.
pub proof fn law_custom_types_pass(allowed: Option<Seq<Seq<char>>>, head: Seq<char>, s: Seq<char>)
    requires
        head.len() > 0,
        free_of(head, CharClass::Exactly(':')),
        free_of(head, CharClass::Exactly('\n')),
        !is_comment(head),
    ensures
        type_verdict(allowed, true, head + seq![':'] + s) is Pass,
{
    lemma_head_of_message(head, s);
}

impl TypeConfig {
    /// The allowed types as sequences of codepoints.
    pub open spec fn allowed(&self) -> Option<Seq<Seq<char>>> {
        names_of(self.allowed_types)
    }

    /// Whether every type passes.
    pub open spec fn allows_custom(&self) -> bool {
        self.allow_custom_types == Some(true)
    }

    /// Judges the type of `commit_msg`.
    ///
    /// Unless custom types are allowed, a missing or empty list of allowed
    /// types, or one of empty strings only, is a configuration error whatever
    /// the message holds. Otherwise the first significant line needs a `:`
    /// with something before it. With custom types allowed that is all. If
    /// not, the type is what stands before the first `(` of the head, or the
    /// whole head where it has none, less one `!` at its end, and it must be
    /// an allowed type. A head with exactly one `(` must also go on after it
    /// with more than a lone `)` and hold a `)`.
    pub fn validate_type(&self, commit_msg: &str) -> (v: Verdict)
        ensures
            v@ == type_verdict(self.allowed(), self.allows_custom(), commit_msg@),
    {
        let allow_custom: bool = match self.allow_custom_types {
            Some(b) => b,
            None => false,
        };
        if !allow_custom {
            match &self.allowed_types {
                Some(list) => {
                    if list.len() == 0 {
                        return Verdict::ConfigError(ConfigFault::AllowedTypesEmpty);
                    }
                    if all_names_empty(list) {
                        return Verdict::ConfigError(ConfigFault::AllowedTypesBlank);
                    }
                },
                None => {
                    return Verdict::ConfigError(ConfigFault::AllowedTypesEmpty);
                },
            }
        }
        let text = chars_of(commit_msg);
        let (a, b) = match significant_line_bounds(&text) {
            Some(bounds) => bounds,
            None => {
                return Verdict::EmptyMessage;
            },
        };
        let line = slice(&text, a, b);
        let c: usize = find(&line, CharClass::Exactly(':'));
        if c == line.len() {
            return Verdict::Fail(Failure::MissingTypeSeparator);
        }
        if c == 0 {
            return Verdict::Fail(Failure::EmptyType);
        }
        let list = match &self.allowed_types {
            Some(list) if !allow_custom => list,
            _ => {
                return Verdict::Pass;
            },
        };
        let head = slice(&line, 0, c);
        proof {
            assert(head@ =~= line@.take(c as int));
        }
        let p: usize = find(&head, CharClass::Exactly('('));
        let end: usize = if p > 0 && head[p - 1] == '!' {
            p - 1
        } else {
            p
        };
        let declared = commit_msg.substring_char(a, a + end).to_owned();
        proof {
            let before = head@.take(p as int);
            if p > 0 {
                assert(before.last() == head@[p - 1]);
                assert(before.drop_last() =~= head@.take(p - 1));
            }
            assert(declared@ =~= declared_type(head@));
        }
        if !contains_name(list, &declared) {
            return Verdict::Fail(Failure::TypeNotAllowed { found: declared });
        }
        if p == head.len() {
            return Verdict::Pass;
        }
        let tail = slice(&head, p + 1, c);
        proof {
            assert(tail@ =~= head@.skip(p + 1));
            lemma_first_of_contains(tail@, '(');
            lemma_first_of_contains(tail@, ')');
        }
        let nested: bool = find(&tail, CharClass::Exactly('(')) < tail.len();
        let lone: bool = tail.len() == 1 && tail[0] == ')';
        proof {
            assert(lone <==> tail@ =~= seq![')']);
        }
        let closed: bool = tail.len() > 0 && !lone && find(&tail, CharClass::Exactly(')'))
            < tail.len();
        if nested || closed {
            Verdict::Pass
        } else {
            let whole = commit_msg.substring_char(a, a + c);
            proof {
                assert(whole@ =~= head@);
            }
            Verdict::Fail(Failure::TypeNotAllowed { found: whole.to_owned() })
        }
    }
}

} // verus!
