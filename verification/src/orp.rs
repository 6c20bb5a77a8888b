//! The optimal recognition point: the character of a word on which the eye
//! should rest while the word is shown.

use vstd::prelude::*;

verus! {

/// The focus-character index of a word of `len` characters.
///
/// Words fall into five buckets by length; the index grows by one from each
/// bucket to the next and stays at 4 from 14 characters on.
pub open spec fn orp_index(len: nat) -> nat {
    if len <= 1 {
        0
    } else if len <= 5 {
        1
    } else if len <= 9 {
        2
    } else if len <= 13 {
        3
    } else {
        4
    }
}

/// Computes the focus-character index of a word of `len` characters.
pub fn get_orp_index(len: usize) -> (index: usize)
    ensures
        index == orp_index(len as nat),
        len >= 1 ==> index < len,
{
    if len <= 1 {
        0
    } else if len <= 5 {
        1
    } else if len <= 9 {
        2
    } else if len <= 13 {
        3
    } else {
        4
    }
}

/// The focus character lies within the word: its index is at most the index
/// of the last character, and 0 for the empty word. The index changes exactly
/// at the lengths 2, 6, 10 and 14, and never decreases as words grow.
pub proof fn orp_index_lies_in_word(len: nat)
    ensures
        orp_index(len) <= (if len == 0 { 0 } else { len - 1 }),
        orp_index(len) <= 4,
        orp_index(len) == 0 <==> len <= 1,
        orp_index(len) == 1 <==> 2 <= len <= 5,
        orp_index(len) == 2 <==> 6 <= len <= 9,
        orp_index(len) == 3 <==> 10 <= len <= 13,
        orp_index(len) == 4 <==> 14 <= len,
        orp_index(len) <= orp_index(len + 1) <= orp_index(len) + 1,
{
}

} // verus!
