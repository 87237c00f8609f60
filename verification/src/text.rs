//! Small operations on text that the rules for reminders are written with.

use vstd::prelude::*;
use vstd::utf8::*;

verus! {

/// The lowercase form that `str::to_lowercase` gives a text with characters
/// beyond ASCII, by Unicode's case mapping.
pub uninterp spec fn unicode_lowercase_of(text: Seq<char>) -> Seq<char>;

/// The lowercase form of an ASCII character: the letters `A` to `Z` become
/// `a` to `z`, and every other character stays.
pub open spec fn ascii_lowercase(c: char) -> char {
    if 'A' <= c && c <= 'Z' {
        ((c as u8 + 32) as u8) as char
    } else {
        c
    }
}

/// A text with each of its characters in the lowercase form that ASCII
/// gives it.
pub open spec fn ascii_lowercase_of(text: Seq<char>) -> Seq<char> {
    text.map_values(|c: char| ascii_lowercase(c))
}

/// The lowercase form of a text. Within ASCII it is the text with each
/// letter from `A` to `Z` made small; beyond ASCII it is what Unicode's case
/// mapping gives.
pub open spec fn lowercase_of(text: Seq<char>) -> Seq<char> {
    if is_ascii_chars(text) {
        ascii_lowercase_of(text)
    } else {
        unicode_lowercase_of(text)
    }
}

/// Whether Unicode gives a character the property White_Space: the tab, the
/// line feed, the vertical tab, the form feed, the carriage return, the
/// space, the next-line control, the no-break space, the Ogham space mark,
/// the spaces from the en quad to the hair space, the line and paragraph
/// separators, the narrow no-break space, the medium mathematical space and
/// the ideographic space.
pub open spec fn is_white_space(c: char) -> bool {
    ||| '\u{9}' <= c && c <= '\u{d}'
    ||| c == ' '
    ||| c == '\u{85}'
    ||| c == '\u{a0}'
    ||| c == '\u{1680}'
    ||| '\u{2000}' <= c && c <= '\u{200a}'
    ||| c == '\u{2028}'
    ||| c == '\u{2029}'
    ||| c == '\u{202f}'
    ||| c == '\u{205f}'
    ||| c == '\u{3000}'
}

/// Calls `str::to_lowercase`. Trusted: the result depends on the argument
/// alone, and for a text within ASCII it is that text with the letters from
/// `A` to `Z` made small and nothing else changed.
#[verifier::external_body]
pub(crate) fn to_lowercase(text: &str) -> (lowered: String)
    ensures
        lowered@ == if is_ascii_chars(text@) {
            ascii_lowercase_of(text@)
        } else {
            unicode_lowercase_of(text@)
        },
{
    text.to_lowercase()
}

/// Calls `char::is_whitespace`. Trusted: it holds of the characters to which
/// Unicode gives the property White_Space, and of no other.
#[verifier::external_body]
pub(crate) fn char_is_whitespace(c: char) -> (b: bool)
    ensures
        b == is_white_space(c),
{
    c.is_whitespace()
}

/// A text within ASCII that holds no capital letter is its own lowercase
/// form.
pub proof fn lemma_lowercase_of_small(text: Seq<char>)
    requires
        is_ascii_chars(text),
        forall|i: int| 0 <= i < text.len() ==> !('A' <= #[trigger] text[i] && text[i] <= 'Z'),
    ensures
        lowercase_of(text) == text,
{
    assert(ascii_lowercase_of(text) =~= text);
}

/// Whether two texts hold the same characters.
pub fn str_eq(a: &str, b: &str) -> (same: bool)
    ensures
        same == (a@ == b@),
{
    let left = a.as_bytes();
    let right = b.as_bytes();
    proof {
        encode_utf8_decode_utf8(a@);
        encode_utf8_decode_utf8(b@);
    }
    if left.len() != right.len() {
        return false;
    }
    let n: usize = left.len();
    let mut i: usize = 0;
    while i < n
        invariant
            i <= n,
            n == left@.len(),
            n == right@.len(),
            left@ == encode_utf8(a@),
            right@ == encode_utf8(b@),
            forall|k: int| 0 <= k < i ==> left@[k] == right@[k],
        decreases n - i,
    {
        if left[i] != right[i] {
            return false;
        }
        i += 1;
    }
    assert(left@ =~= right@);
    true
}

/// The position of the first `mark` in `text`, or the length of `text` where
/// it holds none.
pub open spec fn first_index_of<A>(text: Seq<A>, mark: A) -> int
    decreases text.len(),
{
    if text.len() == 0 || text[0] == mark {
        0
    } else {
        1 + first_index_of(text.drop_first(), mark)
    }
}

/// What stands before and after the first `mark` in `text`, if it holds one.
pub open spec fn split_first(text: Seq<char>, mark: char) -> Option<(Seq<char>, Seq<char>)> {
    let at = first_index_of(text, mark);
    if at < text.len() {
        Some((text.take(at), text.skip(at + 1)))
    } else {
        None
    }
}

/// `first_index_of` is the least position that holds the mark.
pub proof fn lemma_first_index_of<A>(text: Seq<A>, mark: A)
    ensures
        0 <= first_index_of(text, mark) <= text.len(),
        first_index_of(text, mark) < text.len() ==> text[first_index_of(text, mark)] == mark,
        forall|k: int| 0 <= k < first_index_of(text, mark) ==> text[k] != mark,
    decreases text.len(),
{
    if text.len() == 0 || text[0] == mark {
    } else {
        let rest = text.drop_first();
        lemma_first_index_of(rest, mark);
        assert forall|k: int| 0 <= k < first_index_of(text, mark) implies text[k] != mark by {
            if k > 0 {
                assert(text[k] == rest[k - 1]);
            }
        }
    }
}

/// A position that holds the mark, with none before it, is the first.
pub proof fn lemma_first_index_is<A>(text: Seq<A>, mark: A, at: int)
    requires
        0 <= at <= text.len(),
        at < text.len() ==> text[at] == mark,
        forall|k: int| 0 <= k < at ==> text[k] != mark,
    ensures
        first_index_of(text, mark) == at,
{
    lemma_first_index_of(text, mark);
}

/// Splits a text at the first `mark`: the part before it and the part after
/// it, or `None` where the text holds no `mark`.
pub fn split_once_at<'a>(text: &'a str, mark: char) -> (parts: Option<(&'a str, &'a str)>)
    ensures
        match parts {
            Some((head, tail)) => split_first(text@, mark) == Some((head@, tail@)),
            None => split_first(text@, mark) is None,
        },
{
    let n: usize = text.unicode_len();
    let mut i: usize = 0;
    while i < n
        invariant
            i <= n,
            n == text@.len(),
            forall|k: int| 0 <= k < i ==> text@[k] != mark,
        decreases n - i,
    {
        if text.get_char(i) == mark {
            proof {
                lemma_first_index_is(text@, mark, i as int);
            }
            let head = text.substring_char(0, i);
            let tail = text.substring_char(i + 1, n);
            return Some((head, tail));
        }
        i += 1;
    }
    proof {
        lemma_first_index_is(text@, mark, n as int);
    }
    None
}

/// A text without the white space at its start.
pub open spec fn trim_start_of(text: Seq<char>) -> Seq<char>
    decreases text.len(),
{
    if text.len() > 0 && is_white_space(text.first()) {
        trim_start_of(text.drop_first())
    } else {
        text
    }
}

/// A text without the white space at its end.
pub open spec fn trim_end_of(text: Seq<char>) -> Seq<char>
    decreases text.len(),
{
    if text.len() > 0 && is_white_space(text.last()) {
        trim_end_of(text.drop_last())
    } else {
        text
    }
}

/// A text without the white space at either end.
pub open spec fn trimmed(text: Seq<char>) -> Seq<char> {
    trim_end_of(trim_start_of(text))
}

proof fn lemma_trim_start(text: Seq<char>, from: int)
    requires
        0 <= from <= text.len(),
        forall|k: int| 0 <= k < from ==> is_white_space(text[k]),
        from < text.len() ==> !is_white_space(text[from]),
    ensures
        trim_start_of(text) == text.skip(from),
    decreases from,
{
    if from == 0 {
        assert(text.skip(0) =~= text);
    } else {
        let rest = text.drop_first();
        assert forall|k: int| 0 <= k < from - 1 implies is_white_space(rest[k]) by {
            assert(rest[k] == text[k + 1]);
        }
        lemma_trim_start(rest, from - 1);
        assert(rest.skip(from - 1) =~= text.skip(from));
    }
}

proof fn lemma_trim_end(text: Seq<char>, to: int)
    requires
        0 <= to <= text.len(),
        forall|k: int| to <= k < text.len() ==> is_white_space(text[k]),
        to > 0 ==> !is_white_space(text[to - 1]),
    ensures
        trim_end_of(text) == text.take(to),
    decreases text.len() - to,
{
    if to == text.len() {
        assert(text.take(to) =~= text);
    } else {
        let rest = text.drop_last();
        lemma_trim_end(rest, to);
        assert(rest.take(to) =~= text.take(to));
    }
}

/// The text without the white space at its two ends.
pub fn trim<'a>(text: &'a str) -> (inner: &'a str)
    ensures
        inner@ == trimmed(text@),
{
    let n: usize = text.unicode_len();
    let mut from: usize = 0;
    while from < n && char_is_whitespace(text.get_char(from))
        invariant
            from <= n,
            n == text@.len(),
            forall|k: int| 0 <= k < from ==> is_white_space(text@[k]),
        decreases n - from,
    {
        from += 1;
    }
    let mut to: usize = n;
    while to > from && char_is_whitespace(text.get_char(to - 1))
        invariant
            from <= to <= n,
            n == text@.len(),
            forall|k: int| to <= k < n ==> is_white_space(text@[k]),
        decreases to,
    {
        to -= 1;
    }
    let inner = text.substring_char(from, to);
    proof {
        let kept = text@.skip(from as int);
        lemma_trim_start(text@, from as int);
        assert forall|k: int| to - from <= k < kept.len() implies is_white_space(kept[k]) by {
            assert(kept[k] == text@[k + from]);
        }
        if to > from {
            assert(kept[to - from - 1] == text@[to - 1]);
        }
        lemma_trim_end(kept, to - from);
        assert(kept.take(to - from) =~= text@.subrange(from as int, to as int));
    }
    inner
}

} // verus!
