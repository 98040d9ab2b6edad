//! Small helpers on strings, stated over their sequences of characters.

use vstd::prelude::*;

verus! {

/// Whether two string slices hold the same characters.
pub fn same_text(a: &str, b: &str) -> (same: bool)
    ensures
        same == (a@ == b@),
{
    let left = a.to_owned();
    let right = b.to_owned();
    left == right
}

/// Whether `c` occurs in `s`.
pub fn contains_char(s: &str, c: char) -> (found: bool)
    ensures
        found == s@.contains(c),
{
    broadcast use vstd::string::group_string_axioms;
    let mut found = false;
    for x in it: s.chars()
        invariant
            it.seq() == s@,
            found == (exists|j: int| 0 <= j < it.index() && s@[j] == c),
    {
        if x == c {
            found = true;
        }
    }
    found
}

/// The last character of `s`, if it has one.
pub fn last_char(s: &str) -> (last: Option<char>)
    ensures
        s@.len() == 0 ==> last is None,
        s@.len() > 0 ==> last == Some(s@.last()),
{
    broadcast use vstd::string::group_string_axioms;
    let mut last: Option<char> = None;
    for x in it: s.chars()
        invariant
            it.seq() == s@,
            it.index() == 0 ==> last is None,
            it.index() > 0 ==> last == Some(s@[it.index() - 1]),
    {
        last = Some(x);
    }
    last
}

/// The character sequences of a list of strings.
pub open spec fn texts(strings: Seq<String>) -> Seq<Seq<char>> {
    Seq::new(strings.len(), |i: int| strings[i]@)
}

} // verus!
