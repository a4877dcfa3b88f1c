//! Lists of allowed names, as the rules hold them.

use vstd::prelude::*;

verus! {

/// The names of `list` as sequences of codepoints.
pub open spec fn names(list: Seq<String>) -> Seq<Seq<char>> {
    Seq::new(list.len(), |i: int| list[i]@)
}

/// The names that an optional list holds; `None` where there is no list.
pub open spec fn names_of(list: Option<Vec<String>>) -> Option<Seq<Seq<char>>> {
    match list {
        Some(l) => Some(names(l@)),
        None => None,
    }
}

/// Every name of the list is the empty string. An empty list is such a list.
pub open spec fn all_empty(names: Seq<Seq<char>>) -> bool {
    forall|i: int| 0 <= i < names.len() ==> (#[trigger] names[i]).len() == 0
}

/// A list that can allow nothing: it is missing or has no entry.
pub open spec fn is_missing(allowed: Option<Seq<Seq<char>>>) -> bool {
    match allowed {
        Some(a) => a.len() == 0,
        None => true,
    }
}

/// A list that has entries, every one of them the empty string.
pub open spec fn is_blank_list(allowed: Option<Seq<Seq<char>>>) -> bool {
    match allowed {
        Some(a) => a.len() > 0 && all_empty(a),
        None => false,
    }
}

/// Whether `name` is one of the names of `list`.
pub fn contains_name(list: &Vec<String>, name: &String) -> (b: bool)
    ensures
        b == names(list@).contains(name@),
{
    let mut i: usize = 0;
    while i < list.len()
        invariant
            i <= list.len(),
            forall|j: int| 0 <= j < i ==> names(list@)[j] != name@,
        decreases list.len() - i,
    {
        if list[i] == *name {
            proof {
                assert(names(list@)[i as int] == name@);
            }
            return true;
        }
        i += 1;
    }
    false
}

/// Whether every name of `list` is the empty string.
pub fn all_names_empty(list: &Vec<String>) -> (b: bool)
    ensures
        b == all_empty(names(list@)),
{
    let mut i: usize = 0;
    while i < list.len()
        invariant
            i <= list.len(),
            forall|j: int| 0 <= j < i ==> (#[trigger] names(list@)[j]).len() == 0,
        decreases list.len() - i,
    {
        if !list[i].as_str().is_empty() {
            proof {
                assert(names(list@)[i as int].len() != 0);
            }
            return false;
        }
        i += 1;
    }
    true
}

} // verus!
