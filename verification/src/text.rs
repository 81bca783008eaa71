//! ASCII case folding on sequences of characters.

use vstd::prelude::*;
use vstd::string::*;

verus! {

/// The ASCII lower-case form of a character: `'A'..='Z'` move to
/// `'a'..='z'`, every other character stays.
pub open spec fn lower_char(c: char) -> char {
    if 'A' <= c && c <= 'Z' {
        ((c as u8) + 32) as char
    } else {
        c
    }
}

/// The text with every character in its ASCII lower-case form.
pub open spec fn ascii_lowercase(s: Seq<char>) -> Seq<char> {
    Seq::new(s.len(), |i: int| lower_char(s[i]))
}

/// The ASCII lower-case form of `c`.
pub fn to_lower(c: char) -> (l: char)
    ensures
        l == lower_char(c),
{
    if 'A' <= c && c <= 'Z' {
        ((c as u8) + 32) as char
    } else {
        c
    }
}

/// Whether `s`, with its ASCII letters in lower case, reads `lowered`.
pub fn lowers_to(s: &str, lowered: &str) -> (b: bool)
    ensures
        b == (ascii_lowercase(s@) == lowered@),
{
    let n: usize = s.unicode_len();
    if n != lowered.unicode_len() {
        return false;
    }
    let mut i: usize = 0;
    while i < n
        invariant
            n == s@.len(),
            n == lowered@.len(),
            i <= n,
            forall|j: int| 0 <= j < i ==> lower_char(s@[j]) == lowered@[j],
        decreases n - i,
    {
        if to_lower(s.get_char(i)) != lowered.get_char(i) {
            assert(ascii_lowercase(s@)[i as int] != lowered@[i as int]);
            return false;
        }
        i += 1;
    }
    assert(ascii_lowercase(s@) =~= lowered@);
    true
}

} // verus!
