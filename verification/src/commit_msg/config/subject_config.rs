//! The subject rule: what follows the first `:` of the line.

use crate::commit_msg::verdict::{Failure, FailureModel, Verdict, VerdictModel};
use crate::commit_msg::first_line::{lemma_lead_stays_significant, lemma_single_line};
use crate::commit_msg::{first_significant_line, is_comment, significant_line_bounds};
use crate::text::{
    chars_of, find, first_of, free_of, lemma_first_from_is, slice, trim, trimmed_len, CharClass,
};
use vstd::prelude::*;

verus! {

/// The length bounds that hold where the rule names none.
pub const DEFAULT_MIN_LENGTH: u8 = 1;

pub const DEFAULT_MAX_LENGTH: u8 = 72;

/// The subject rule. A field that is `None` takes its default: a space is
/// required after the `:`, and the subject has 1 to 72 codepoints.
#[derive(Clone, Copy, Debug, PartialEq, Eq)]
pub struct SubjectConfig {
    pub require_space_after_colon: Option<bool>,
    pub min_length: Option<u8>,
    pub max_length: Option<u8>,
}

/// The verdict of the subject rule on a significant line.
///
/// The subject is all that follows the first `:`. Its first character must
/// be a space where `require_space` holds and must not be one where it does
/// not. The count that is held against the bounds is that of the subject's
/// codepoints once it is trimmed.
pub open spec fn subject_line_verdict(
    require_space: bool,
    min_length: u8,
    max_length: u8,
    line: Seq<char>,
) -> VerdictModel {
    let c = first_of(line, CharClass::Exactly(':'));
    if c == line.len() {
        VerdictModel::Fail(FailureModel::SubjectMissing)
    } else {
        let subject = line.skip(c + 1);
        let spaced = starts_with_space(subject);
        let length = trim(subject).len();
        if require_space && !spaced {
            VerdictModel::Fail(FailureModel::SubjectSpaceRequired)
        } else if !require_space && spaced {
            VerdictModel::Fail(FailureModel::SubjectSpaceForbidden)
        } else if min_length <= length <= max_length {
            VerdictModel::Pass
        } else {
            VerdictModel::Fail(
                FailureModel::SubjectLengthOutOfRange { length, min_length, max_length },
            )
        }
    }
}

/// The verdict of the subject rule on the message `text`.
pub open spec fn subject_verdict(
    require_space: bool,
    min_length: u8,
    max_length: u8,
    text: Seq<char>,
) -> VerdictModel {
    match first_significant_line(text) {
        None => VerdictModel::EmptyMessage,
        Some(line) => subject_line_verdict(require_space, min_length, max_length, line),
    }
}

/// Whether `subject` starts with a space.
pub open spec fn starts_with_space(subject: Seq<char>) -> bool {
    subject.len() > 0 && subject[0] == ' '
}

/// The subject rule on a message of one line, `head`, `:`, `subject`, where
/// `head` holds no `:` and starts no comment.
///
/// A subject that starts with a space where none may stand, or without one
/// where one must stand, fails for that, whatever its length. Any other
/// subject passes exactly if the count of its codepoints, once it is
/// trimmed, is at least `min_length` and at most `max_length`: a count equal
/// to either bound passes, one under the first or over the second fails.
pub proof fn law_subject_bounds(
    require_space: bool,
    min_length: u8,
    max_length: u8,
    head: Seq<char>,
    subject: Seq<char>,
)
    requires
        free_of(head, CharClass::Exactly(':')),
        free_of(head, CharClass::Exactly('\n')),
        free_of(subject, CharClass::Exactly('\n')),
        !is_comment(head),
    ensures
        ({
            let verdict = subject_verdict(
                require_space,
                min_length,
                max_length,
                head + seq![':'] + subject,
            );
            &&& require_space && !starts_with_space(subject) ==> verdict == VerdictModel::Fail(
                FailureModel::SubjectSpaceRequired,
            )
            &&& !require_space && starts_with_space(subject) ==> verdict == VerdictModel::Fail(
                FailureModel::SubjectSpaceForbidden,
            )
            &&& require_space == starts_with_space(subject) ==> (verdict is Pass <==> min_length
                <= trim(subject).len() <= max_length)
            &&& require_space == starts_with_space(subject) && !(min_length <= trim(subject).len()
                <= max_length) ==> verdict == VerdictModel::Fail(
                FailureModel::SubjectLengthOutOfRange {
                    length: trim(subject).len(),
                    min_length,
                    max_length,
                },
            )
        }),
{
    let text = head + seq![':'] + subject;
    let n = head.len() as int;
    assert forall|j: int| 0 <= j < text.len() implies text[j] == (if j < n {
        head[j]
    } else if j == n {
        ':'
    } else {
        subject[j - n - 1]
    }) by {}
    assert forall|j: int| 0 <= j < text.len() implies !CharClass::Exactly('\n').holds(
        #[trigger] text[j],
    ) by {
        if j < n {
            assert(!CharClass::Exactly('\n').holds(head[j]));
        } else if j > n {
            assert(!CharClass::Exactly('\n').holds(subject[j - n - 1]));
        }
    }
    assert(text =~= head + (seq![':'] + subject));
    lemma_lead_stays_significant(head, seq![':'] + subject);
    lemma_single_line(text);
    assert forall|j: int| 0 <= j < n implies !CharClass::Exactly(':').holds(#[trigger] text[j]) by {
        assert(!CharClass::Exactly(':').holds(head[j]));
    }
    lemma_first_from_is(text, CharClass::Exactly(':'), 0, n);
    assert(text.skip(n + 1) =~= subject);
}

impl SubjectConfig {
    /// Whether a space must follow the `:`; true where the rule is silent.
    pub open spec fn spec_require_space(&self) -> bool {
        match self.require_space_after_colon {
            Some(b) => b,
            None => true,
        }
    }

    /// The least length of a subject; 1 where the rule is silent.
    pub open spec fn spec_min_len(&self) -> u8 {
        match self.min_length {
            Some(n) => n,
            None => DEFAULT_MIN_LENGTH,
        }
    }

    /// The greatest length of a subject; 72 where the rule is silent.
    pub open spec fn spec_max_len(&self) -> u8 {
        match self.max_length {
            Some(n) => n,
            None => DEFAULT_MAX_LENGTH,
        }
    }

    /// Whether a space must follow the `:`.
    #[verifier::when_used_as_spec(spec_require_space)]
    pub fn require_space(&self) -> (b: bool)
        ensures
            b == self.spec_require_space(),
    {
        match self.require_space_after_colon {
            Some(b) => b,
            None => true,
        }
    }

    /// The least length of a subject.
    #[verifier::when_used_as_spec(spec_min_len)]
    pub fn min_len(&self) -> (n: u8)
        ensures
            n == self.spec_min_len(),
    {
        match self.min_length {
            Some(n) => n,
            None => DEFAULT_MIN_LENGTH,
        }
    }

    /// The greatest length of a subject.
    #[verifier::when_used_as_spec(spec_max_len)]
    pub fn max_len(&self) -> (n: u8)
        ensures
            n == self.spec_max_len(),
    {
        match self.max_length {
            Some(n) => n,
            None => DEFAULT_MAX_LENGTH,
        }
    }

    /// Judges the subject of `commit_msg`.
    ///
    /// The first significant line needs a `:`. What follows the first `:` is
    /// the subject. It must start with a space where the rule requires one
    /// and must not where the rule forbids it. Trimmed, it must have at least
    /// `min_len` and at most `max_len` codepoints.
    pub fn validate_subject(&self, commit_msg: &str) -> (v: Verdict)
        ensures
            v@ == subject_verdict(self.require_space(), self.min_len(), self.max_len(), commit_msg@),
    {
        let text = chars_of(commit_msg);
        let (a, b) = match significant_line_bounds(&text) {
            Some(bounds) => bounds,
            None => {
                return Verdict::EmptyMessage;
            },
        };
        let line = slice(&text, a, b);
        let c: usize = find(&line, CharClass::Exactly(':'));
        if c == line.len() {
            return Verdict::Fail(Failure::SubjectMissing);
        }
        let subject = slice(&line, c + 1, line.len());
        proof {
            assert(subject@ =~= line@.skip(c + 1));
        }
        let spaced: bool = subject.len() > 0 && subject[0] == ' ';
        let require_space: bool = self.require_space();
        if require_space && !spaced {
            return Verdict::Fail(Failure::SubjectSpaceRequired);
        }
        if !require_space && spaced {
            return Verdict::Fail(Failure::SubjectSpaceForbidden);
        }
        let length: usize = trimmed_len(&subject);
        let min_length: u8 = self.min_len();
        let max_length: u8 = self.max_len();
        if (min_length as usize) <= length && length <= (max_length as usize) {
            Verdict::Pass
        } else {
            Verdict::Fail(Failure::SubjectLengthOutOfRange { length, min_length, max_length })
        }
    }
}

} // verus!
