//! Characters and searches over sequences of characters.
//!
//! Every validator reads the commit message as a sequence of Unicode
//! codepoints. This module holds the vocabulary they share: character
//! classes, the position of the first character of a class, trimming, and
//! the executable counterparts on `Vec<char>`.

use vstd::prelude::*;

verus! {

/// Whether `c` has the Unicode `White_Space` property, which is what
/// `char::is_whitespace` and `str::trim` go by.
pub open spec fn is_whitespace(c: char) -> bool {
    let u = c as u32;
    ||| 0x09 <= u <= 0x0D
    ||| u == 0x20
    ||| u == 0x85
    ||| u == 0xA0
    ||| u == 0x1680
    ||| 0x2000 <= u <= 0x200A
    ||| u == 0x2028
    ||| u == 0x2029
    ||| u == 0x202F
    ||| u == 0x205F
    ||| u == 0x3000
}

/// Executable form of [`is_whitespace`].
pub fn char_is_whitespace(c: char) -> (b: bool)
    ensures
        b == is_whitespace(c),
{
    let u: u32 = c as u32;
    (0x09 <= u && u <= 0x0D) || u == 0x20 || u == 0x85 || u == 0xA0 || u == 0x1680 || (0x2000 <= u
        && u <= 0x200A) || u == 0x2028 || u == 0x2029 || u == 0x202F || u == 0x205F || u == 0x3000
}

/// A set of characters that a search can look for.
#[derive(Clone, Copy, Debug)]
pub enum CharClass {
    /// The one character given.
    Exactly(char),
    /// An opening or a closing parenthesis.
    Paren,
    /// Any character that is not whitespace.
    Visible,
}

impl CharClass {
    /// Whether `c` belongs to the class.
    pub open spec fn holds(self, c: char) -> bool {
        match self {
            CharClass::Exactly(x) => c == x,
            CharClass::Paren => c == '(' || c == ')',
            CharClass::Visible => !is_whitespace(c),
        }
    }

    /// Executable form of [`CharClass::holds`].
    pub fn test(&self, c: char) -> (b: bool)
        ensures
            b == self.holds(c),
    {
        match self {
            CharClass::Exactly(x) => c == *x,
            CharClass::Paren => c == '(' || c == ')',
            CharClass::Visible => !char_is_whitespace(c),
        }
    }
}

/// The least index at or after `from` whose character belongs to `class`,
/// or the length of `s` where there is none.
pub open spec fn first_from(s: Seq<char>, class: CharClass, from: int) -> int
    decreases s.len() - from,
{
    if from < 0 || from >= s.len() {
        s.len() as int
    } else if class.holds(s[from]) {
        from
    } else {
        first_from(s, class, from + 1)
    }
}

/// The least index whose character belongs to `class`, or the length of `s`
/// where there is none.
pub open spec fn first_of(s: Seq<char>, class: CharClass) -> int {
    first_from(s, class, 0)
}

/// No character of `s` belongs to `class`.
pub open spec fn free_of(s: Seq<char>, class: CharClass) -> bool {
    forall|i: int| 0 <= i < s.len() ==> !class.holds(#[trigger] s[i])
}

/// What [`first_from`] finds: nothing of the class lies between `from` and
/// the result, and the result is either a character of the class or the end.
pub proof fn lemma_first_from(s: Seq<char>, class: CharClass, from: int)
    requires
        0 <= from <= s.len(),
    ensures
        from <= first_from(s, class, from) <= s.len(),
        forall|j: int| from <= j < first_from(s, class, from) ==> !class.holds(#[trigger] s[j]),
        first_from(s, class, from) < s.len() ==> class.holds(s[first_from(s, class, from)]),
    decreases s.len() - from,
{
    if from < s.len() && !class.holds(s[from]) {
        lemma_first_from(s, class, from + 1);
    }
}

/// [`first_from`] is the only index with the properties of
/// [`lemma_first_from`].
pub proof fn lemma_first_from_is(s: Seq<char>, class: CharClass, from: int, k: int)
    requires
        0 <= from <= k <= s.len(),
        forall|j: int| from <= j < k ==> !class.holds(#[trigger] s[j]),
        k < s.len() ==> class.holds(s[k]),
    ensures
        first_from(s, class, from) == k,
    decreases k - from,
{
    if from < k {
        lemma_first_from_is(s, class, from + 1, k);
    }
}

/// A character of the class occurs in `s` exactly where the search does not
/// run to the end.
pub proof fn lemma_first_of_contains(s: Seq<char>, c: char)
    ensures
        s.contains(c) <==> first_of(s, CharClass::Exactly(c)) < s.len(),
{
    let class = CharClass::Exactly(c);
    lemma_first_from(s, class, 0);
    if s.contains(c) {
        let i = choose|i: int| 0 <= i < s.len() && s[i] == c;
        assert(class.holds(s[i]));
    }
    if first_of(s, class) < s.len() {
        assert(s[first_of(s, class)] == c);
    }
}

/// `s` without its leading whitespace.
pub open spec fn trim_start(s: Seq<char>) -> Seq<char> {
    s.skip(first_of(s, CharClass::Visible))
}

/// `s` without its trailing whitespace.
pub open spec fn trim_end(s: Seq<char>) -> Seq<char>
    decreases s.len(),
{
    if s.len() > 0 && is_whitespace(s.last()) {
        trim_end(s.drop_last())
    } else {
        s
    }
}

/// `s` without the whitespace on either side, as `str::trim` gives it.
pub open spec fn trim(s: Seq<char>) -> Seq<char> {
    trim_end(trim_start(s))
}

/// The codepoints of `s`, in order.
pub fn chars_of(s: &str) -> (v: Vec<char>)
    ensures
        v@ == s@,
{
    let mut v: Vec<char> = Vec::new();
    for c in it: s.chars()
        invariant
            it.seq() == s@,
            v@ == it.seq().take(it.index() as int),
    {
        v.push(c);
    }
    proof {
        assert(v@ =~= s@);
    }
    v
}

/// Executable form of [`first_from`].
pub fn find_from(s: &Vec<char>, class: CharClass, from: usize) -> (i: usize)
    ensures
        i == first_from(s@, class, from as int),
        from <= s.len() ==> from <= i <= s.len(),
{
    if from >= s.len() {
        return s.len();
    }
    let mut i: usize = from;
    while i < s.len() && !class.test(s[i])
        invariant
            from <= i <= s.len(),
            forall|j: int| from <= j < i ==> !class.holds(#[trigger] s@[j]),
        decreases s.len() - i,
    {
        i += 1;
    }
    proof {
        lemma_first_from_is(s@, class, from as int, i as int);
    }
    i
}

/// Executable form of [`first_of`].
pub fn find(s: &Vec<char>, class: CharClass) -> (i: usize)
    ensures
        i == first_of(s@, class),
        i <= s.len(),
{
    find_from(s, class, 0)
}

/// A copy of the characters of `s` from `from` up to, not including, `to`.
pub fn slice(s: &Vec<char>, from: usize, to: usize) -> (v: Vec<char>)
    requires
        from <= to <= s.len(),
    ensures
        v@ == s@.subrange(from as int, to as int),
{
    let mut v: Vec<char> = Vec::new();
    let mut i: usize = from;
    while i < to
        invariant
            from <= i <= to <= s.len(),
            v@ == s@.subrange(from as int, i as int),
        decreases to - i,
    {
        v.push(s[i]);
        i += 1;
        proof {
            assert(v@ =~= s@.subrange(from as int, i as int));
        }
    }
    v
}

/// The number of codepoints of `s` once the whitespace on either side is
/// taken away.
pub fn trimmed_len(s: &Vec<char>) -> (n: usize)
    ensures
        n == trim(s@).len(),
{
    let a: usize = find(s, CharClass::Visible);
    let mut b: usize = s.len();
    proof {
        assert(s@.subrange(a as int, b as int) =~= s@.skip(a as int));
    }
    while b > a && char_is_whitespace(s[b - 1])
        invariant
            a <= b <= s.len(),
            trim(s@) == trim_end(s@.subrange(a as int, b as int)),
        decreases b,
    {
        proof {
            let cur = s@.subrange(a as int, b as int);
            assert(cur.last() == s@[b - 1]);
            assert(cur.drop_last() =~= s@.subrange(a as int, b - 1));
        }
        b -= 1;
    }
    proof {
        let cur = s@.subrange(a as int, b as int);
        if b > a {
            assert(cur.last() == s@[b - 1]);
        }
    }
    b - a
}

} // verus!
