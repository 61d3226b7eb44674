//! A model of splitting a string on the namespace separator "::", as
//! `str::split` does it: non-overlapping occurrences, scanned from the
//! left. Demodulizing keeps the last segment, deconstantizing the one
//! before it.

use vstd::prelude::*;

verus! {

/// The namespace separator "::" occurs somewhere in the string.
pub open spec fn has_sep(s: Seq<char>) -> bool {
    exists|i: int| 0 <= i && i + 1 < s.len() && #[trigger] s[i] == ':' && s[i + 1] == ':'
}

/// The segments of the string between non-overlapping occurrences of
/// "::", scanned from the left; a string without the separator is one
/// whole segment, and the result is never empty.
pub open spec fn split_segs(s: Seq<char>) -> Seq<Seq<char>>
    decreases s.len(),
{
    if s.len() < 2 {
        seq![s]
    } else if s[0] == ':' && s[1] == ':' {
        seq![Seq::<char>::empty()] + split_segs(s.skip(2))
    } else if !has_sep(s) {
        seq![s]
    } else {
        let rest = split_segs(s.skip(1));
        seq![seq![s[0]] + rest[0]] + rest.skip(1)
    }
}

} // verus!
