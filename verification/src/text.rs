use vstd::prelude::*;
use vstd::string::*;

verus! {

/// Whether `c` is white space in the sense of the Unicode property
/// `White_Space`: the answer of `char::is_whitespace`.
pub uninterp spec fn is_whitespace(c: char) -> bool;

/// The lower-case form of `text` that `str::to_lowercase` produces.
pub uninterp spec fn lowercase(text: Seq<char>) -> Seq<char>;

/// Calls `char::is_whitespace`. Trusted: the result is the one that
/// [`is_whitespace`] names.
#[verifier::external_body]
fn char_is_whitespace(c: char) -> (white: bool)
    ensures
        white == is_whitespace(c),
{
    c.is_whitespace()
}

/// Calls `str::to_lowercase`. Trusted: the result is the one that
/// [`lowercase`] names.
#[verifier::external_body]
pub(crate) fn to_lowercase(text: &str) -> (lower: String)
    ensures
        lower@ == lowercase(text@),
{
    text.to_lowercase()
}

/// `text` without its leading white space.
pub open spec fn trim_start(text: Seq<char>) -> Seq<char>
    decreases text.len(),
{
    if text.len() > 0 && is_whitespace(text.first()) {
        trim_start(text.drop_first())
    } else {
        text
    }
}

/// `text` without its trailing white space.
pub open spec fn trim_end(text: Seq<char>) -> Seq<char>
    decreases text.len(),
{
    if text.len() > 0 && is_whitespace(text.last()) {
        trim_end(text.drop_last())
    } else {
        text
    }
}

/// `text` without leading and trailing white space.
pub open spec fn trimmed(text: Seq<char>) -> Seq<char> {
    trim_end(trim_start(text))
}

/// `text` without the run of `c` at its end.
pub open spec fn strip_trailing(text: Seq<char>, c: char) -> Seq<char>
    decreases text.len(),
{
    if text.len() > 0 && text.last() == c {
        strip_trailing(text.drop_last(), c)
    } else {
        text
    }
}

/// The characters of `text`, in order.
pub fn chars_of(text: &str) -> (chars: Vec<char>)
    ensures
        chars@ == text@,
{
    let mut chars: Vec<char> = Vec::new();
    for c in it: text.chars()
        invariant
            it.seq() == text@,
            chars@ == text@.take(it.index() as int),
    {
        chars.push(c);
    }
    chars
}

/// Removes leading and trailing white space.
pub fn trim(text: &str) -> (inner: &str)
    ensures
        inner@ == trimmed(text@),
{
    let chars = chars_of(text);
    let n = chars.len();
    let mut start: usize = 0;
    assert(text@.skip(0) == text@);
    while start < n && char_is_whitespace(chars[start])
        invariant
            start <= n,
            n == chars.len(),
            chars@ == text@,
            trim_start(text@) == trim_start(text@.skip(start as int)),
        decreases n - start,
    {
        assert(text@.skip(start as int).drop_first() == text@.skip(start + 1));
        start += 1;
    }
    let mut end: usize = n;
    while end > start && char_is_whitespace(chars[end - 1])
        invariant
            start <= end <= n,
            n == chars.len(),
            chars@ == text@,
            trim_end(trim_start(text@)) == trim_end(text@.subrange(start as int, end as int)),
        decreases end,
    {
        assert(text@.subrange(start as int, end as int).drop_last() == text@.subrange(
            start as int,
            end - 1,
        ));
        end -= 1;
    }
    text.substring_char(start, end)
}

/// Removes every `c` at the end of `text`.
pub fn trim_end_matches(text: &str, c: char) -> (inner: &str)
    ensures
        inner@ == strip_trailing(text@, c),
{
    let chars = chars_of(text);
    let mut end: usize = chars.len();
    assert(text@.take(end as int) == text@);
    while end > 0 && chars[end - 1] == c
        invariant
            end <= chars.len(),
            chars@ == text@,
            strip_trailing(text@, c) == strip_trailing(text@.take(end as int), c),
        decreases end,
    {
        assert(text@.take(end as int).drop_last() == text@.take(end - 1));
        end -= 1;
    }
    text.substring_char(0, end)
}

/// If `index` is where `needle` first occurs in `text`, `index_of_first` says so.
pub proof fn lemma_first_occurrence(text: Seq<char>, needle: char, index: int)
    requires
        0 <= index < text.len(),
        text[index] == needle,
        forall|j: int| 0 <= j < index ==> text[j] != needle,
    ensures
        text.index_of_first(needle) == Some(index),
{
    text.index_of_first_ensures(needle);
}

/// If `index` is where `needle` last occurs in `text`, `index_of_last` says so.
pub proof fn lemma_last_occurrence(text: Seq<char>, needle: char, index: int)
    requires
        0 <= index < text.len(),
        text[index] == needle,
        forall|j: int| index < j < text.len() ==> text[j] != needle,
    ensures
        text.index_of_last(needle) == Some(index),
{
    text.index_of_last_ensures(needle);
}

/// A character that occurs nowhere has neither a first nor a last position.
pub proof fn lemma_no_occurrence(text: Seq<char>, needle: char)
    requires
        !text.contains(needle),
    ensures
        text.index_of_first(needle) is None,
        text.index_of_last(needle) is None,
{
    text.index_of_first_ensures(needle);
    text.index_of_last_ensures(needle);
}

/// Where `needle` first occurs in `chars`.
pub fn find_first(chars: &[char], needle: char) -> (found: Option<usize>)
    ensures
        match found {
            Some(i) => i < chars.len() && chars@.index_of_first(needle) == Some(i as int),
            None => chars@.index_of_first(needle) is None,
        },
{
    let mut i: usize = 0;
    while i < chars.len()
        invariant
            i <= chars.len(),
            forall|j: int| 0 <= j < i ==> chars@[j] != needle,
        decreases chars.len() - i,
    {
        if chars[i] == needle {
            proof {
                lemma_first_occurrence(chars@, needle, i as int);
            }
            return Some(i);
        }
        i += 1;
    }
    proof {
        lemma_no_occurrence(chars@, needle);
    }
    None
}

/// Where `needle` last occurs in `chars`.
pub fn find_last(chars: &[char], needle: char) -> (found: Option<usize>)
    ensures
        match found {
            Some(i) => i < chars.len() && chars@.index_of_last(needle) == Some(i as int),
            None => chars@.index_of_last(needle) is None,
        },
{
    let mut i: usize = chars.len();
    while i > 0
        invariant
            i <= chars.len(),
            forall|j: int| i <= j < chars.len() ==> chars@[j] != needle,
        decreases i,
    {
        i -= 1;
        if chars[i] == needle {
            proof {
                lemma_last_occurrence(chars@, needle, i as int);
            }
            return Some(i);
        }
    }
    proof {
        lemma_no_occurrence(chars@, needle);
    }
    None
}

} // verus!
