//! Bringing a line of input into the form that the parser reads: without
//! the white space around it, and in lower case.
//!
//! Which characters are white space and what the lower case of a text is go
//! by the Unicode character tables of the standard library. Those two
//! questions are put to it, not proved: this module states what is taken
//! from the answers.

use vstd::prelude::*;

verus! {

/// Whether `char::is_whitespace` accepts `c`, that is whether `c` has the
/// Unicode property `White_Space`.
pub uninterp spec fn is_white_space(c: char) -> bool;

/// What `str::to_lowercase` returns for `text`: its lower-case equivalent by
/// the Unicode property `Lowercase`. It may differ from `text` in length.
pub uninterp spec fn lowercase(text: Seq<char>) -> Seq<char>;

/// `text` without the white space that leads it.
pub open spec fn trim_start(text: Seq<char>) -> Seq<char>
    decreases text.len(),
{
    if text.len() > 0 && is_white_space(text.first()) {
        trim_start(text.drop_first())
    } else {
        text
    }
}

/// `text` without the white space that ends it.
pub open spec fn trim_end(text: Seq<char>) -> Seq<char>
    decreases text.len(),
{
    if text.len() > 0 && is_white_space(text.last()) {
        trim_end(text.drop_last())
    } else {
        text
    }
}

/// `text` without the white space around it.
pub open spec fn trimmed(text: Seq<char>) -> Seq<char> {
    trim_end(trim_start(text))
}

/// The form of `line` that the parser reads.
pub open spec fn normal_form(line: Seq<char>) -> Seq<char> {
    lowercase(trimmed(line))
}

/// Whether `text` is white space before `start` and from `end` on, and
/// begins and ends with other characters in between.
pub open spec fn is_core(text: Seq<char>, start: int, end: int) -> bool {
    &&& 0 <= start <= end <= text.len()
    &&& forall|k: int| 0 <= k < start ==> is_white_space(#[trigger] text[k])
    &&& forall|k: int| end <= k < text.len() ==> is_white_space(#[trigger] text[k])
    &&& start < end ==> !is_white_space(text[start]) && !is_white_space(text[end - 1])
}

/// Stripping the leading white space leaves what begins at the first other
/// character.
pub proof fn lemma_trim_start(text: Seq<char>, start: int)
    requires
        0 <= start <= text.len(),
        forall|k: int| 0 <= k < start ==> is_white_space(#[trigger] text[k]),
        start < text.len() ==> !is_white_space(text[start]),
    ensures
        trim_start(text) == text.skip(start),
    decreases start,
{
    if start == 0 {
        assert(text.skip(0) =~= text);
    } else {
        let rest = text.drop_first();
        assert forall|k: int| 0 <= k < start - 1 implies is_white_space(#[trigger] rest[k]) by {
            assert(rest[k] == text[k + 1]);
        }
        lemma_trim_start(rest, start - 1);
        assert(rest.skip(start - 1) =~= text.skip(start));
    }
}

/// Stripping the trailing white space leaves what ends with the last other
/// character.
pub proof fn lemma_trim_end(text: Seq<char>, end: int)
    requires
        0 <= end <= text.len(),
        forall|k: int| end <= k < text.len() ==> is_white_space(#[trigger] text[k]),
        0 < end ==> !is_white_space(text[end - 1]),
    ensures
        trim_end(text) == text.take(end),
    decreases text.len() - end,
{
    if end == text.len() {
        assert(text.take(end) =~= text);
    } else {
        let rest = text.drop_last();
        lemma_trim_end(rest, end);
        assert(rest.take(end) =~= text.take(end));
    }
}

/// A text without the white space around it is its core.
pub proof fn lemma_trimmed(text: Seq<char>, start: int, end: int)
    requires
        is_core(text, start, end),
    ensures
        trimmed(text) == text.subrange(start, end),
{
    if start < end {
        lemma_trim_start(text, start);
        let rest = text.skip(start);
        assert forall|k: int| end - start <= k < rest.len() implies is_white_space(
            #[trigger] rest[k],
        ) by {
            assert(rest[k] == text[k + start]);
        }
        lemma_trim_end(rest, end - start);
        assert(rest.take(end - start) =~= text.subrange(start, end));
    } else {
        assert forall|k: int| 0 <= k < text.len() implies is_white_space(#[trigger] text[k]) by {
            if k < start {
            }
        }
        lemma_trim_start(text, text.len() as int);
        assert(text.skip(text.len() as int) =~= Seq::<char>::empty());
        assert(text.subrange(start, end) =~= Seq::<char>::empty());
    }
}

/// Calls `char::is_whitespace`. Trusted: the answer depends on `c` alone.
#[verifier::external_body]
fn is_whitespace(c: char) -> (white: bool)
    ensures
        white == is_white_space(c),
{
    c.is_whitespace()
}

/// Calls `str::to_lowercase`. Trusted: the result depends on the characters
/// of `text` alone.
#[verifier::external_body]
fn to_lowercase(text: &str) -> (lower: String)
    ensures
        lower@ == lowercase(text@),
{
    text.to_lowercase()
}

/// The part of `text` that is left without the white space around it.
pub fn trim(text: &str) -> (inner: &str)
    ensures
        inner@ == trimmed(text@),
{
    let mut start: usize = 0;
    let mut end: usize = 0;
    let mut i: usize = 0;
    let len = text.unicode_len();
    for c in it: text.chars()
        invariant
            it.seq() == text@,
            len == text@.len(),
            i == it.index(),
            is_core(text@.take(i as int), start as int, end as int),
    {
        let ghost seen = text@.take(i as int);
        let ghost next = text@.take(i + 1);
        assert forall|k: int| 0 <= k < i implies next[k] == seen[k] by {}
        if !is_whitespace(c) {
            if start == end {
                start = i;
            }
            end = i + 1;
        }
        i = i + 1;
    }
    proof {
        assert(text@.take(len as int) =~= text@);
        lemma_trimmed(text@, start as int, end as int);
    }
    text.substring_char(start, end)
}

/// Strips the white space around `line` and puts what is left in lower
/// case.
pub fn normalize(line: &str) -> (normal: String)
    ensures
        normal@ == normal_form(line@),
{
    to_lowercase(trim(line))
}

} // verus!
