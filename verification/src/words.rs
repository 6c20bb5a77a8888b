//! The word source: splitting a text into the words that are shown.
//!
//! A word is a maximal run of characters that are not white space. Which
//! characters are white space is decided by the standard library, from the
//! Unicode property of that name.

use vstd::prelude::*;

verus! {

/// Whether `c` is white space: a name for the result of the standard
/// library's `char::is_whitespace`, which tests the Unicode property
/// `White_Space`. The name has no definition here.
pub uninterp spec fn is_white_space(c: char) -> bool;

/// Contract of `char::is_whitespace`, taken on trust: its result depends on
/// the character alone and is what `is_white_space` names. Nothing is claimed
/// of which characters are white space.
pub assume_specification[ char::is_whitespace ](c: char) -> (b: bool)
    ensures
        b == is_white_space(c),
;

/// Contract of `String::push`, taken on trust from its documentation: the
/// string afterwards is the string before with `c` appended at its end.
pub assume_specification[ String::push ](s: &mut String, c: char)
    ensures
        final(s)@ == old(s)@.push(c),
;

/// The first position at or after `from` that holds white space, or the
/// length of `text` where there is none: the end of the word that starts at
/// `from`.
pub open spec fn word_end(text: Seq<char>, from: int) -> int
    decreases text.len() - from,
{
    if from < 0 || from >= text.len() || is_white_space(text[from]) {
        from
    } else {
        word_end(text, from + 1)
    }
}

/// The words of `text` that start at or after `from`, in order.
pub open spec fn tokens_from(text: Seq<char>, from: int) -> Seq<Seq<char>>
    decreases text.len() - from,
    via tokens_from_decreases
{
    if from < 0 || from >= text.len() {
        Seq::empty()
    } else if is_white_space(text[from]) {
        tokens_from(text, from + 1)
    } else {
        seq![text.subrange(from, word_end(text, from))] + tokens_from(text, word_end(text, from))
    }
}

#[via_fn]
proof fn tokens_from_decreases(text: Seq<char>, from: int) {
    if 0 <= from < text.len() && !is_white_space(text[from]) {
        word_end_bounds(text, from + 1);
    }
}

/// The words of `text`: its maximal runs of characters that are not white
/// space, in the order in which they stand.
pub open spec fn tokens(text: Seq<char>) -> Seq<Seq<char>> {
    tokens_from(text, 0)
}

/// Whether `text` holds nothing but white space.
pub open spec fn blank(text: Seq<char>) -> bool {
    forall|i: int| 0 <= i < text.len() ==> is_white_space(#[trigger] text[i])
}

/// The word that starts at `from` ends within the text, holds no white
/// space, and is followed by white space or by the end of the text.
pub proof fn word_end_bounds(text: Seq<char>, from: int)
    requires
        0 <= from <= text.len(),
    ensures
        from <= word_end(text, from) <= text.len(),
        forall|k: int| from <= k < word_end(text, from) ==> !is_white_space(#[trigger] text[k]),
        word_end(text, from) < text.len() ==> is_white_space(text[word_end(text, from)]),
    decreases text.len() - from,
{
    if from < text.len() && !is_white_space(text[from]) {
        word_end_bounds(text, from + 1);
    }
}

/// A run without white space that is followed by white space, or by the end
/// of the text, ends where the word ends.
pub proof fn word_end_of_run(text: Seq<char>, from: int, end: int)
    requires
        0 <= from <= end <= text.len(),
        forall|k: int| from <= k < end ==> !is_white_space(#[trigger] text[k]),
        end < text.len() ==> is_white_space(text[end]),
    ensures
        word_end(text, from) == end,
    decreases end - from,
{
    if from < end {
        word_end_of_run(text, from + 1, end);
    }
}

/// Every word holds at least one character and no white space.
pub proof fn tokens_are_words(text: Seq<char>, from: int)
    requires
        0 <= from <= text.len(),
    ensures
        forall|i: int|
            0 <= i < tokens_from(text, from).len() ==> (#[trigger] tokens_from(text, from)[i]).len()
                >= 1,
        forall|i: int, k: int|
            0 <= i < tokens_from(text, from).len() && 0 <= k < tokens_from(text, from)[i].len()
                ==> !is_white_space(#[trigger] tokens_from(text, from)[i][k]),
    decreases text.len() - from,
{
    if from < text.len() {
        if is_white_space(text[from]) {
            tokens_are_words(text, from + 1);
            assert(tokens_from(text, from) == tokens_from(text, from + 1));
        } else {
            let end = word_end(text, from);
            word_end_bounds(text, from);
            word_end_bounds(text, from + 1);
            tokens_are_words(text, end);
            let first = text.subrange(from, end);
            let rest = tokens_from(text, end);
            let all = tokens_from(text, from);
            assert(all == seq![first] + rest);
            assert forall|i: int| 0 <= i < all.len() implies (#[trigger] all[i]).len() >= 1 by {
                if i > 0 {
                    assert(all[i] == rest[i - 1]);
                }
            }
            assert forall|i: int, k: int| 0 <= i < all.len() && 0 <= k < all[i].len() implies
                !is_white_space(#[trigger] all[i][k]) by {
                if i > 0 {
                    assert(all[i] == rest[i - 1]);
                } else {
                    assert(all[0][k] == text[from + k]);
                }
            }
        }
    }
}

/// A text has no words exactly if it is blank from `from` on.
pub proof fn no_tokens_iff_blank_from(text: Seq<char>, from: int)
    requires
        0 <= from <= text.len(),
    ensures
        tokens_from(text, from).len() == 0 <==> (forall|i: int|
            from <= i < text.len() ==> is_white_space(#[trigger] text[i])),
    decreases text.len() - from,
{
    if from < text.len() {
        if is_white_space(text[from]) {
            no_tokens_iff_blank_from(text, from + 1);
        }
    }
}

/// A text has no words exactly if it is blank.
pub proof fn no_tokens_iff_blank(text: Seq<char>)
    ensures
        tokens(text).len() == 0 <==> blank(text),
        forall|i: int| 0 <= i < tokens(text).len() ==> (#[trigger] tokens(text)[i]).len() >= 1,
        forall|i: int, k: int|
            0 <= i < tokens(text).len() && 0 <= k < tokens(text)[i].len() ==> !is_white_space(
                #[trigger] tokens(text)[i][k],
            ),
{
    no_tokens_iff_blank_from(text, 0);
    tokens_are_words(text, 0);
}

/// Splits `text` into its words.
pub fn split_words(text: &str) -> (words: Vec<String>)
    ensures
        words.deep_view() == tokens(text@),
{
    let mut words: Vec<String> = Vec::new();
    let mut word: String = String::new();
    let ghost start: int = 0;
    let chars = text.chars();
    proof {
        vstd::string::axiom_spec_iter(text);
    }
    for c in it: chars
        invariant
            it.seq() == text@,
            0 <= start <= it.index() <= text@.len(),
            word@ == text@.subrange(start, it.index()),
            forall|k: int| start <= k < it.index() ==> !is_white_space(#[trigger] text@[k]),
            words.deep_view() + tokens_from(text@, start) == tokens(text@),
    {
        let ghost at: int = it.index();
        if c.is_whitespace() {
            if !word.as_str().is_empty() {
                proof {
                    word_end_of_run(text@, start, at);
                    assert(tokens_from(text@, at) == tokens_from(text@, at + 1));
                    assert(tokens_from(text@, start) == seq![word@] + tokens_from(text@, at));
                    assert(words.deep_view().push(word@) + tokens_from(text@, at + 1)
                        =~= words.deep_view() + tokens_from(text@, start));
                }
                let ghost before = words.deep_view();
                let ghost shown = word@;
                words.push(word);
                word = String::new();
                proof {
                    assert(words.deep_view() =~= before.push(shown));
                }
            }
            proof {
                start = at + 1;
                assert(word@ =~= text@.subrange(start, at + 1));
            }
        } else {
            word.push(c);
            assert(word@ =~= text@.subrange(start, at + 1));
        }
    }
    let ghost end: int = text@.len() as int;
    if !word.as_str().is_empty() {
        proof {
            word_end_of_run(text@, start, end);
            assert(tokens_from(text@, end) =~= Seq::<Seq<char>>::empty());
            assert(words.deep_view().push(word@) =~= words.deep_view() + tokens_from(
                text@,
                start,
            ));
        }
        let ghost before = words.deep_view();
        let ghost shown = word@;
        words.push(word);
        proof {
            assert(words.deep_view() =~= before.push(shown));
        }
    } else {
        proof {
            assert(words.deep_view() + tokens_from(text@, start) =~= words.deep_view());
        }
    }
    words
}

/// Tells whether `text` holds nothing but white space, and so no word.
pub fn is_blank(text: &str) -> (b: bool)
    ensures
        b == blank(text@),
        b == (tokens(text@).len() == 0),
{
    let chars = text.chars();
    proof {
        vstd::string::axiom_spec_iter(text);
        no_tokens_iff_blank(text@);
    }
    for c in it: chars
        invariant
            it.seq() == text@,
            0 <= it.index() <= text@.len(),
            forall|k: int| 0 <= k < it.index() ==> is_white_space(#[trigger] text@[k]),
            !blank(text@) == (tokens(text@).len() != 0),
    {
        if !c.is_whitespace() {
            return false;
        }
    }
    true
}

} // verus!
