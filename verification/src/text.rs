//! Text normalization: ASCII lowercasing of the displayed string.

use vstd::prelude::*;

verus! {

/// The ASCII lower-case form of `c`: `'A'..='Z'` move to `'a'..='z'`, every
/// other character stays.
pub open spec fn lower_char(c: char) -> char {
    if 'A' <= c && c <= 'Z' {
        ((c as u32) + 32) as char
    } else {
        c
    }
}

/// The text with every character replaced by its ASCII lower-case form.
pub open spec fn normalized(s: Seq<char>) -> Seq<char> {
    Seq::new(s.len(), |i: int| lower_char(s[i]))
}

/// Taken on trust: `str::to_ascii_lowercase` returns a copy of the string in
/// which the ASCII letters `'A'..='Z'` are replaced by `'a'..='z'` and all
/// other characters are unchanged.
pub assume_specification[ str::to_ascii_lowercase ](s: &str) -> (r: String)
    ensures
        r@ == normalized(s@),
;

/// Lowercases `text` the way the animation stores it.
pub fn normalize(text: &str) -> (r: String)
    ensures
        r@ == normalized(text@),
        r@.len() == text@.len(),
{
    text.to_ascii_lowercase()
}

/// The characters of `text`, in order.
pub fn to_chars(text: &str) -> (chars: Vec<char>)
    ensures
        chars@ == text@,
{
    let mut chars: Vec<char> = Vec::new();
    for c in it: text.chars()
        invariant
            chars@ == it.seq().take(it.index() as int),
    {
        chars.push(c);
    }
    chars
}

/// Normalizing a second time changes nothing.
pub proof fn lemma_normalize_idempotent(s: Seq<char>)
    ensures
        normalized(normalized(s)) == normalized(s),
{
    assert(normalized(normalized(s)) =~= normalized(s));
}

} // verus!
