//! Splitting text at a delimiter.

use vstd::prelude::*;

verus! {

/// What lies before and after the first `delimiter` in `text`, if there is one.
pub open spec fn split_at_first(text: Seq<char>, delimiter: char) -> Option<
    (Seq<char>, Seq<char>),
> {
    match text.index_of_first(delimiter) {
        Some(at) => Some((text.subrange(0, at), text.subrange(at + 1, text.len() as int))),
        None => None,
    }
}

/// `str::split_once` of std, with a `char` as the delimiter. Trusted: the
/// text is split at the first occurrence of the delimiter into what stands
/// before it and what stands after it, and nothing is returned where the
/// delimiter does not occur.
#[verifier::external_body]
pub(crate) fn split_once<'a>(text: &'a str, delimiter: char) -> (parts: Option<(&'a str, &'a str)>)
    ensures
        match parts {
            Some((head, tail)) => split_at_first(text@, delimiter) == Some((head@, tail@)),
            None => split_at_first(text@, delimiter) is None,
        },
{
    text.split_once(delimiter)
}

/// A text with a delimiter in it is its two parts with the delimiter between
/// them, and the first part holds no delimiter.
pub proof fn lemma_split_at_first(text: Seq<char>, delimiter: char)
    ensures
        match split_at_first(text, delimiter) {
            Some((head, tail)) => {
                &&& text == head + seq![delimiter] + tail
                &&& !head.contains(delimiter)
                &&& text.contains(delimiter)
            },
            None => !text.contains(delimiter),
        },
{
    text.index_of_first_ensures(delimiter);
    match text.index_of_first(delimiter) {
        Some(at) => {
            let head = text.subrange(0, at);
            let tail = text.subrange(at + 1, text.len() as int);
            assert(text =~= head + seq![delimiter] + tail);
            assert forall|i: int| 0 <= i < head.len() implies head[i] != delimiter by {
                assert(head[i] == text[i]);
            }
        },
        None => {},
    }
}

/// A text without the white space at its two ends, as `str::trim` of std
/// leaves it.
pub uninterp spec fn trimmed(text: Seq<char>) -> Seq<char>;

/// `str::trim` of std. Trusted: the result is the text without its leading
/// and trailing white space, which is given the name `trimmed` here.
#[verifier::external_body]
pub(crate) fn trim<'a>(text: &'a str) -> (inner: &'a str)
    ensures
        inner@ == trimmed(text@),
{
    text.trim()
}

} // verus!
