//! Small verified helpers on strings, stated over their character sequences.

use vstd::prelude::*;
use vstd::utf8::{encode_utf8, encode_utf8_decode_utf8};

verus! {

/// Whether two strings hold the same characters.
///
/// The comparison runs over the UTF-8 bytes; since encoding is injective the
/// answer is the same as comparing the character sequences.
pub fn str_eq(a: &str, b: &str) -> (r: bool)
    ensures
        r == (a@ == b@),
{
    let x = a.as_bytes();
    let y = b.as_bytes();
    proof {
        encode_utf8_decode_utf8(a@);
        encode_utf8_decode_utf8(b@);
    }
    if x.len() != y.len() {
        return false;
    }
    let n = x.len();
    let mut i: usize = 0;
    while i < n
        invariant
            i <= n,
            n == x@.len(),
            n == y@.len(),
            x@ == encode_utf8(a@),
            y@ == encode_utf8(b@),
            forall|j: int| 0 <= j < i ==> x@[j] == y@[j],
        decreases n - i,
    {
        if x[i] != y[i] {
            return false;
        }
        i += 1;
    }
    assert(x@ =~= y@);
    true
}

/// The concatenation of two strings.
pub fn concat(a: &str, b: &str) -> (r: String)
    ensures
        r@ == a@ + b@,
{
    let mut r = String::from_str(a);
    r.append(b);
    r
}

/// A fresh string holding the characters of `s`.
pub fn owned(s: &str) -> (r: String)
    ensures
        r@ == s@,
{
    String::from_str(s)
}

/// A copy of an optional string.
pub fn clone_opt(o: &Option<String>) -> (r: Option<String>)
    ensures
        r == *o,
{
    match o {
        Some(s) => Some(s.clone()),
        None => None,
    }
}

/// The characters of an optional string.
pub open spec fn opt_text(o: Option<String>) -> Option<Seq<char>> {
    match o {
        Some(s) => Some(s@),
        None => None,
    }
}

/// An optional fresh string holding the characters of `o`.
pub fn owned_opt(o: Option<&str>) -> (r: Option<String>)
    ensures
        opt_text(r) == match o {
            Some(s) => Some(s@),
            None => None,
        },
{
    match o {
        Some(s) => Some(owned(s)),
        None => None,
    }
}

/// `s` without the run of `c` at its end.
pub open spec fn without_trailing(s: Seq<char>, c: char) -> Seq<char>
    decreases s.len(),
{
    if s.len() > 0 && s.last() == c {
        without_trailing(s.drop_last(), c)
    } else {
        s
    }
}

/// What is left of a string once a run of `c` has been cut off its end
/// is what is left of the whole string.
proof fn lemma_without_trailing_prefix(s: Seq<char>, c: char, end: int)
    requires
        0 <= end <= s.len(),
        forall|i: int| end <= i < s.len() ==> s[i] == c,
    ensures
        without_trailing(s, c) == without_trailing(s.subrange(0, end), c),
    decreases s.len() - end,
{
    if end < s.len() {
        assert(s.last() == c);
        assert(s.drop_last().subrange(0, end) =~= s.subrange(0, end));
        lemma_without_trailing_prefix(s.drop_last(), c, end);
    } else {
        assert(s.subrange(0, end) =~= s);
    }
}

/// A copy of `s` without the run of `c` at its end.
pub fn trim_trailing(s: &str, c: char) -> (r: String)
    ensures
        r@ == without_trailing(s@, c),
{
    let mut end = s.unicode_len();
    while end > 0 && s.get_char(end - 1) == c
        invariant
            end <= s@.len(),
            forall|i: int| end <= i < s@.len() ==> s@[i] == c,
        decreases end,
    {
        end -= 1;
    }
    proof {
        lemma_without_trailing_prefix(s@, c, end as int);
    }
    owned(s.substring_char(0, end))
}

/// Whether two optional strings hold the same characters, or are both
/// absent.
pub fn same_opt(a: &Option<String>, b: &Option<String>) -> (r: bool)
    ensures
        r == (opt_text(*a) == opt_text(*b)),
{
    match (a, b) {
        (Some(x), Some(y)) => {
            let eq = *x == *y;
            eq
        },
        (None, None) => true,
        _ => false,
    }
}

} // verus!
