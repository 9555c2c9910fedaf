//! Character-level helpers shared by the parsers of this crate.

use vstd::prelude::*;

verus! {

/// Collects the characters of `s` into a vector, so that they can be read by index.
pub fn chars_of(s: &str) -> (v: Vec<char>)
    ensures
        v@ == s@,
{
    let mut v: Vec<char> = Vec::new();
    for c in it: s.chars()
        invariant
            v@ == it.seq().take(it.index()),
            it.seq() == s@,
    {
        v.push(c);
    }
    v
}

} // verus!
