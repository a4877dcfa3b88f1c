//! The first significant line of a commit message.
//!
//! The lines of a text are what `str::lines` gives: a line ends at a line
//! feed, a carriage return directly before that line feed belongs to the line
//! ending, and a line feed at the very end of the text opens no further line.
//! A line is significant if it is neither blank nor a `#` comment.

use crate::text::{
    chars_of, find, find_from, first_from, first_of, free_of, is_whitespace, lemma_first_from,
    lemma_first_from_is, slice, CharClass,
};
use vstd::prelude::*;

verus! {

/// A line that holds nothing but whitespace.
pub open spec fn is_blank(line: Seq<char>) -> bool {
    first_of(line, CharClass::Visible) == line.len()
}

/// A line whose first character after any leading whitespace is `#`.
pub open spec fn is_comment(line: Seq<char>) -> bool {
    let i = first_of(line, CharClass::Visible);
    i < line.len() && line[i] == '#'
}

/// A line that is neither blank nor a comment.
pub open spec fn is_significant(line: Seq<char>) -> bool {
    !is_blank(line) && !is_comment(line)
}

/// Where the line that starts at `start` ends: at its line feed, or at the
/// carriage return that stands directly before that line feed. A line that
/// the end of the text closes keeps a carriage return at its end.
pub open spec fn line_end(text: Seq<char>, start: int) -> int {
    let nl = first_from(text, CharClass::Exactly('\n'), start);
    if nl < text.len() && start < nl && text[nl - 1] == '\r' {
        nl - 1
    } else {
        nl
    }
}

/// Whether a line of `text` starts at `i`: at the start of the text, or
/// directly after a line feed, and before the end of the text.
pub open spec fn is_line_start(text: Seq<char>, i: int) -> bool {
    0 <= i < text.len() && (i == 0 || text[i - 1] == '\n')
}

/// The line of `text` that starts at `start`, without its line ending.
pub open spec fn line_at(text: Seq<char>, start: int) -> Seq<char> {
    text.subrange(start, line_end(text, start))
}

/// The first significant line among the lines of `text` that start at
/// `start` or later, where `start` is itself the start of a line.
pub open spec fn first_significant_from(text: Seq<char>, start: int) -> Option<Seq<char>>
    decreases text.len() - start,
{
    if start < 0 || start >= text.len() {
        None
    } else {
        proof {
            lemma_first_from(text, CharClass::Exactly('\n'), start);
        }
        let line = line_at(text, start);
        let nl = first_from(text, CharClass::Exactly('\n'), start);
        if is_significant(line) {
            Some(line)
        } else if nl < text.len() {
            first_significant_from(text, nl + 1)
        } else {
            None
        }
    }
}

/// The first line of `text` that is neither blank nor a comment, without its
/// line terminator; `None` where every line is blank or a comment.
pub open spec fn first_significant_line(text: Seq<char>) -> Option<Seq<char>> {
    first_significant_from(text, 0)
}

/// The lines from `start` on, where `start` is the start of a line or the
/// end of the text: the result of [`first_significant_from`] is the first
/// significant one of them, and `None` where none of them is significant.
/// The index returned is where that line starts.
proof fn lemma_first_significant_from(text: Seq<char>, start: int) -> (i: int)
    requires
        0 <= start <= text.len(),
        start == 0 || text[start - 1] == '\n',
    ensures
        match first_significant_from(text, start) {
            Some(line) => {
                &&& start <= i
                &&& is_line_start(text, i)
                &&& line == line_at(text, i)
                &&& is_significant(line)
                &&& forall|j: int|
                    start <= j < i && is_line_start(text, j) ==> !is_significant(
                        #[trigger] line_at(text, j),
                    )
            },
            None => forall|j: int|
                start <= j && is_line_start(text, j) ==> !is_significant(
                    #[trigger] line_at(text, j),
                ),
        },
    decreases text.len() - start,
{
    if start >= text.len() {
        start
    } else {
        let nl = first_from(text, CharClass::Exactly('\n'), start);
        lemma_first_from(text, CharClass::Exactly('\n'), start);
        assert forall|j: int| start < j <= nl implies !is_line_start(text, j) by {
            if j < text.len() {
                assert(!CharClass::Exactly('\n').holds(text[j - 1]));
            }
        }
        if is_significant(line_at(text, start)) {
            start
        } else if nl < text.len() {
            lemma_first_significant_from(text, nl + 1)
        } else {
            start
        }
    }
}

/// The first significant line is the earliest line of the text that is
/// neither blank nor a comment, and there is none exactly when every line of
/// the text is blank or a comment. The index returned is where that line
/// starts.
pub proof fn law_first_significant_line(text: Seq<char>) -> (i: int)
    ensures
        match first_significant_line(text) {
            Some(line) => {
                &&& is_line_start(text, i)
                &&& line == line_at(text, i)
                &&& is_significant(line)
                &&& forall|j: int|
                    j < i && is_line_start(text, j) ==> !is_significant(
                        #[trigger] line_at(text, j),
                    )
            },
            None => forall|j: int|
                is_line_start(text, j) ==> !is_significant(#[trigger] line_at(text, j)),
        },
{
    lemma_first_significant_from(text, 0)
}

/// A text without a line feed that is neither blank nor a comment is its own
/// first significant line.
pub proof fn lemma_single_line(text: Seq<char>)
    requires
        free_of(text, CharClass::Exactly('\n')),
        is_significant(text),
    ensures
        first_significant_line(text) == Some(text),
{
    lemma_first_from_is(text, CharClass::Exactly('\n'), 0, text.len() as int);
    assert(text.subrange(0, text.len() as int) =~= text);
    lemma_first_from(text, CharClass::Visible, 0);
}

/// A lead that starts no comment stays the start of a significant line when
/// text is put behind it, if that text starts with a visible character other
/// than `#`: the first visible character of the whole is that of the lead,
/// or the first of what was put behind it.
pub proof fn lemma_lead_stays_significant(lead: Seq<char>, tail: Seq<char>)
    requires
        !is_comment(lead),
        tail.len() > 0,
        !is_whitespace(tail[0]),
        tail[0] != '#',
    ensures
        is_significant(lead + tail),
{
    let whole = lead + tail;
    let k = first_of(lead, CharClass::Visible);
    lemma_first_from(lead, CharClass::Visible, 0);
    assert forall|j: int| 0 <= j < k implies !CharClass::Visible.holds(#[trigger] whole[j]) by {
        assert(whole[j] == lead[j]);
    }
    assert(whole[k] == (if k < lead.len() {
        lead[k]
    } else {
        tail[0]
    }));
    lemma_first_from_is(whole, CharClass::Visible, 0, k);
}

/// A text that starts with `lead`, where `lead` holds no line feed, does not
/// end in a carriage return and is neither blank nor a comment: the first
/// significant line of the text is its first line, and that line starts with
/// `lead`.
pub proof fn lemma_line_with_lead(lead: Seq<char>, rest: Seq<char>)
    requires
        free_of(lead, CharClass::Exactly('\n')),
        is_significant(lead),
        lead.last() != '\r',
    ensures
        first_significant_line(lead + rest) is Some,
        first_significant_line(lead + rest)->0.len() >= lead.len(),
        first_significant_line(lead + rest)->0.take(lead.len() as int) == lead,
{
    let text = lead + rest;
    let newline = CharClass::Exactly('\n');
    lemma_first_from(lead, CharClass::Visible, 0);
    let k = first_of(lead, CharClass::Visible);
    assert(k < lead.len());
    lemma_first_from(text, newline, 0);
    let nl = first_from(text, newline, 0);
    if nl < lead.len() {
        assert(text[nl] == lead[nl]);
        assert(newline.holds(lead[nl]));
    }
    let end = line_end(text, 0);
    if end < nl {
        assert(text[nl - 1] == '\r');
        if nl == lead.len() {
            assert(text[nl - 1] == lead.last());
        }
    }
    let line = line_at(text, 0);
    assert(line.take(lead.len() as int) =~= lead);
    assert forall|j: int| 0 <= j < k implies !CharClass::Visible.holds(#[trigger] line[j]) by {
        assert(line[j] == lead[j]);
    }
    assert(line[k] == lead[k]);
    lemma_first_from_is(line, CharClass::Visible, 0, k);
}

/// Executable form of [`is_significant`].
pub fn line_is_significant(line: &Vec<char>) -> (b: bool)
    ensures
        b == is_significant(line@),
{
    let i: usize = find(line, CharClass::Visible);
    i < line.len() && line[i] != '#'
}

/// The bounds, in codepoints, of the first significant line of `text`: where
/// the line starts and where it ends. No line that starts earlier is
/// significant.
pub fn significant_line_bounds(text: &Vec<char>) -> (r: Option<(usize, usize)>)
    ensures
        match r {
            Some((a, b)) => {
                &&& a <= b <= text.len()
                &&& is_line_start(text@, a as int)
                &&& b == line_end(text@, a as int)
                &&& is_significant(line_at(text@, a as int))
                &&& forall|j: int|
                    j < a && is_line_start(text@, j) ==> !is_significant(
                        #[trigger] line_at(text@, j),
                    )
                &&& first_significant_line(text@) == Some(text@.subrange(a as int, b as int))
            },
            None => first_significant_line(text@) is None,
        },
{
    let mut start: usize = 0;
    while start < text.len()
        invariant
            start <= text.len(),
            start == 0 || text@[start - 1] == '\n',
            first_significant_from(text@, start as int) == first_significant_line(text@),
            forall|j: int|
                j < start && is_line_start(text@, j) ==> !is_significant(
                    #[trigger] line_at(text@, j),
                ),
        decreases text.len() - start,
    {
        let nl: usize = find_from(text, CharClass::Exactly('\n'), start);
        let end: usize = if nl < text.len() && start < nl && text[nl - 1] == '\r' {
            nl - 1
        } else {
            nl
        };
        let line = slice(text, start, end);
        if line_is_significant(&line) {
            return Some((start, end));
        }
        if nl == text.len() {
            return None;
        }
        proof {
            lemma_first_from(text@, CharClass::Exactly('\n'), start as int);
            assert forall|j: int| start < j <= nl implies !is_line_start(text@, j) by {
                assert(!CharClass::Exactly('\n').holds(text@[j - 1]));
            }
        }
        start = nl + 1;
    }
    None
}

/// The first line of `commit_msg` that is neither blank nor a `#` comment,
/// or `None` where the message has no such line.
pub fn get_commit_msg_first_line(commit_msg: &str) -> (line: Option<&str>)
    ensures
        match line {
            Some(l) => first_significant_line(commit_msg@) == Some(l@),
            None => first_significant_line(commit_msg@) is None,
        },
{
    let text = chars_of(commit_msg);
    match significant_line_bounds(&text) {
        Some((a, b)) => Some(commit_msg.substring_char(a, b)),
        None => None,
    }
}

} // verus!
