//! Ordinal handling: appending and stripping the English ordinal suffix
//! ("1st", "2nd", "3rd", "4th", with the 11-13 exception band) on the
//! trailing decimal digit of a string.

use vstd::prelude::*;

verus! {

/// A decimal digit: one of '0' through '9'.
pub open spec fn is_decimal_digit(c: char) -> bool {
    48 <= c as u32 && c as u32 <= 57
}

/// The two characters form one of the English ordinal suffixes
/// "st", "nd", "rd" or "th".
pub open spec fn is_ordinal_suffix(c1: char, c2: char) -> bool {
    ||| (c1 == 's' && c2 == 't')
    ||| (c1 == 'n' && c2 == 'd')
    ||| (c1 == 'r' && c2 == 'd')
    ||| (c1 == 't' && c2 == 'h')
}

/// What `ordinalize` returns: a string not ending in a decimal digit is
/// unchanged; a digit preceded by '1' takes "th" (the 11-13 band); after
/// that band, a string holding a decimal point is left alone (it reads as
/// a fraction); otherwise the suffix follows the last digit.
pub open spec fn spec_ordinalize(s: Seq<char>) -> Seq<char> {
    if s.len() == 0 {
        s
    } else if !is_decimal_digit(s.last()) {
        s
    } else if s.len() > 1 && s[s.len() - 2] == '1' {
        s + seq!['t', 'h']
    } else if s.len() > 1 && s.contains('.') {
        s
    } else if s.last() == '1' {
        s + seq!['s', 't']
    } else if s.last() == '2' {
        s + seq!['n', 'd']
    } else if s.last() == '3' {
        s + seq!['r', 'd']
    } else {
        s + seq!['t', 'h']
    }
}

/// What `deordinalize` returns: the two-letter ordinal suffix is stripped
/// if and only if it immediately follows a decimal digit.
pub open spec fn spec_deordinalize(s: Seq<char>) -> Seq<char> {
    if s.len() >= 3 && is_decimal_digit(s[s.len() - 3]) && is_ordinal_suffix(
        s[s.len() - 2],
        s[s.len() - 1],
    ) {
        s.take(s.len() - 2)
    } else {
        s
    }
}

fn char_is_decimal_digit(c: char) -> (b: bool)
    ensures
        b == is_decimal_digit(c),
{
    let u = c as u32;
    48 <= u && u <= 57
}

fn contains_dot(s: &str) -> (b: bool)
    ensures
        b == s@.contains('.'),
{
    let n = s.unicode_len();
    let mut i: usize = 0;
    while i < n
        invariant
            n == s@.len(),
            i <= n,
            forall|j: int| 0 <= j < i ==> s@[j] != '.',
        decreases n - i,
    {
        if s.get_char(i) == '.' {
            assert(s@[i as int] == '.');
            return true;
        }
        i += 1;
    }
    false
}

/// Appends the English ordinal suffix to a string whose last character is
/// a decimal digit; any other string comes back unchanged.
pub fn ordinalize(s: &str) -> (r: String)
    ensures
        r@ == spec_ordinalize(s@),
{
    let n = s.unicode_len();
    if n == 0 {
        return String::new();
    }
    let last = s.get_char(n - 1);
    if !char_is_decimal_digit(last) {
        return s.to_owned();
    }
    if n > 1 && s.get_char(n - 2) == '1' {
        let mut r = s.to_owned();
        r.append("th");
        proof {
            reveal_strlit("th");
            assert(r@ =~= s@ + seq!['t', 'h']);
        }
        return r;
    }
    if n > 1 && contains_dot(s) {
        return s.to_owned();
    }
    if last == '1' {
        let mut r = s.to_owned();
        r.append("st");
        proof {
            reveal_strlit("st");
            assert(r@ =~= s@ + seq!['s', 't']);
        }
        r
    } else if last == '2' {
        let mut r = s.to_owned();
        r.append("nd");
        proof {
            reveal_strlit("nd");
            assert(r@ =~= s@ + seq!['n', 'd']);
        }
        r
    } else if last == '3' {
        let mut r = s.to_owned();
        r.append("rd");
        proof {
            reveal_strlit("rd");
            assert(r@ =~= s@ + seq!['r', 'd']);
        }
        r
    } else {
        let mut r = s.to_owned();
        r.append("th");
        proof {
            reveal_strlit("th");
            assert(r@ =~= s@ + seq!['t', 'h']);
        }
        r
    }
}

/// Strips a two-letter ordinal suffix when one immediately follows a
/// decimal digit; any other string comes back unchanged.
pub fn deordinalize(s: &str) -> (r: String)
    ensures
        r@ == spec_deordinalize(s@),
{
    let n = s.unicode_len();
    if n >= 3 {
        let d = s.get_char(n - 3);
        let c1 = s.get_char(n - 2);
        let c2 = s.get_char(n - 1);
        let suffixed = (c1 == 's' && c2 == 't') || (c1 == 'n' && c2 == 'd') || (c1 == 'r' && c2
            == 'd') || (c1 == 't' && c2 == 'h');
        if char_is_decimal_digit(d) && suffixed {
            let r = s.substring_char(0, n - 2).to_owned();
            proof {
                assert(r@ =~= s@.take(s@.len() - 2));
            }
            return r;
        }
    }
    s.to_owned()
}

/// Stripping the suffix that `ordinalize` put on restores the input: the
/// round trip is the identity on every string that ends in a decimal digit.
pub proof fn lemma_ordinal_round_trip(s: Seq<char>)
    requires
        s.len() > 0,
        is_decimal_digit(s.last()),
    ensures
        spec_deordinalize(spec_ordinalize(s)) == s,
{
    let t = spec_ordinalize(s);
    if t =~= s {
        // ordinalize left the string alone; its last character is a digit,
        // never the second letter of an ordinal suffix, so nothing is stripped
        if s.len() >= 3 {
            assert(!is_ordinal_suffix(s[s.len() - 2], s[s.len() - 1]));
        }
    } else {
        assert(t.len() == s.len() + 2);
        assert(t[t.len() - 3] == s.last());
        assert(is_ordinal_suffix(t[t.len() - 2], t[t.len() - 1]));
        assert(spec_deordinalize(t) == t.take(t.len() - 2));
        assert(t.take(t.len() - 2) =~= s);
    }
}

} // verus!
