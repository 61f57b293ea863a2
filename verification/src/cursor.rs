//! Cursor arithmetic: the index of the active character moves one place at
//! a time and wraps at the end of the text.

use vstd::prelude::*;
use vstd::arithmetic::div_mod::{lemma_mod_self_0, lemma_small_mod};

verus! {

/// The position after `cursor` in a text of `len` characters, wrapping to
/// the start after the last one.
pub open spec fn next_index(cursor: int, len: int) -> int {
    (cursor + 1) % len
}

/// Where the cursor stands once the skip rule has been applied: it stays on
/// a letter and moves one place off anything else.
pub open spec fn skip_target(cursor: int, len: int, on_letter: bool) -> int {
    if on_letter {
        cursor
    } else {
        next_index(cursor, len)
    }
}

/// Inside the text the next position is the following index.
pub proof fn lemma_next_index_steps(cursor: int, len: int)
    requires
        0 <= cursor,
        cursor + 1 < len,
    ensures
        next_index(cursor, len) == cursor + 1,
{
    lemma_small_mod((cursor + 1) as nat, len as nat);
}

/// Advancing from the last position of a text leads back to position 0.
pub proof fn lemma_next_index_wraps(len: int)
    requires
        len > 0,
    ensures
        next_index(len - 1, len) == 0,
{
    lemma_mod_self_0(len);
}

/// Advancing a valid cursor gives a valid cursor.
pub proof fn lemma_next_index_in_range(cursor: int, len: int)
    requires
        0 <= cursor < len,
    ensures
        0 <= next_index(cursor, len) < len,
{
    if cursor + 1 < len {
        lemma_next_index_steps(cursor, len);
    } else {
        lemma_next_index_wraps(len);
    }
}

/// Moves the cursor one place forward, wrapping at the end of the text.
pub fn advance(cursor: usize, len: usize) -> (r: usize)
    requires
        cursor < len,
    ensures
        r == next_index(cursor as int, len as int),
        r < len,
{
    proof {
        lemma_next_index_in_range(cursor as int, len as int);
    }
    (cursor + 1) % len
}

/// Applies the skip rule to a cursor, given whether the character under it
/// is a letter.
pub fn skip(cursor: usize, len: usize, on_letter: bool) -> (r: usize)
    requires
        cursor < len,
    ensures
        r == skip_target(cursor as int, len as int, on_letter),
        r < len,
{
    if on_letter {
        cursor
    } else {
        advance(cursor, len)
    }
}

} // verus!
