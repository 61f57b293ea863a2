//! Character classification and case mapping as the Unicode tables of the
//! standard library define them.

use vstd::prelude::*;

verus! {

/// Whether Unicode classes `c` as `Alphabetic`.
pub uninterp spec fn alphabetic(c: char) -> bool;

/// The upper-case mapping of `c`, as the sequence of characters that it
/// expands to.
pub uninterp spec fn uppercase_mapping(c: char) -> Seq<char>;

/// Taken on trust: `char::is_alphabetic` reports whether Unicode classes the
/// character as `Alphabetic`, and the answer depends on the character alone.
/// Nothing is claimed about which characters those are.
pub assume_specification[ char::is_alphabetic ](c: char) -> (r: bool)
    ensures
        r == alphabetic(c),
;

/// Taken on trust: the characters that `char::to_uppercase` yields for a
/// character, in order, depend on the character alone. Nothing is claimed
/// about which characters those are.
#[verifier::external_body]
fn uppercase_chars(c: char) -> (r: Vec<char>)
    ensures
        r@ == uppercase_mapping(c),
{
    c.to_uppercase().collect()
}

/// The character drawn for `c` when it is the active one: the first
/// character of its upper-case mapping, or `c` itself where the mapping is
/// empty.
pub open spec fn first_or(mapping: Seq<char>, c: char) -> char {
    if mapping.len() > 0 {
        mapping[0]
    } else {
        c
    }
}

/// The character drawn in place of `c` while `c` is active.
pub open spec fn capital(c: char) -> char {
    first_or(uppercase_mapping(c), c)
}

/// Picks the glyph for an active character from its upper-case mapping.
pub fn capital_from(mapping: &Vec<char>, c: char) -> (r: char)
    ensures
        r == first_or(mapping@, c),
{
    if mapping.len() > 0 {
        mapping[0]
    } else {
        c
    }
}

/// The glyph of `c` when it is the active character.
pub fn capitalize(c: char) -> (r: char)
    ensures
        r == capital(c),
{
    let mapping = uppercase_chars(c);
    capital_from(&mapping, c)
}

} // verus!
