//! What is written when the hook is installed.
//!
//! The hook is a shell script, and a shell script with carriage returns in
//! it does not run. Whatever line endings the script was kept with, the file
//! that is written has line feeds only.

use crate::text::chars_of;
use vstd::prelude::*;

verus! {

/// `s` without its carriage returns.
pub open spec fn without_carriage_returns(s: Seq<char>) -> Seq<char>
    decreases s.len(),
{
    if s.len() == 0 {
        s
    } else if s.last() == '\r' {
        without_carriage_returns(s.drop_last())
    } else {
        without_carriage_returns(s.drop_last()).push(s.last())
    }
}

/// The script `content` with Unix line endings: every carriage return is
/// taken out, and every other character stays where it was.
pub fn unix_line_endings(content: &str) -> (script: String)
    ensures
        script@ == without_carriage_returns(content@),
{
    let chars = chars_of(content);
    let mut script = String::new();
    let mut start: usize = 0;
    let mut i: usize = 0;
    while i < chars.len()
        invariant
            chars@ == content@,
            start <= i <= chars.len(),
            script@ + chars@.subrange(start as int, i as int) == without_carriage_returns(
                chars@.subrange(0, i as int),
            ),
        decreases chars.len() - i,
    {
        proof {
            assert(chars@.subrange(0, i + 1).drop_last() =~= chars@.subrange(0, i as int));
        }
        if chars[i] == '\r' {
            script.append(content.substring_char(start, i));
            start = i + 1;
            proof {
                assert(chars@.subrange(start as int, start as int) =~= Seq::<char>::empty());
                assert(script@ + Seq::<char>::empty() =~= script@);
            }
        } else {
            proof {
                assert(chars@.subrange(start as int, i + 1) =~= chars@.subrange(
                    start as int,
                    i as int,
                ).push(chars@[i as int]));
                let run = chars@.subrange(start as int, i as int);
                assert(script@ + run.push(chars@[i as int]) =~= (script@ + run).push(
                    chars@[i as int],
                ));
            }
        }
        i += 1;
    }
    script.append(content.substring_char(start, chars.len()));
    proof {
        assert(chars@.subrange(0, chars.len() as int) =~= chars@);
    }
    script
}

} // verus!
