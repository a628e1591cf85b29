//! The manifest that a source file carries in its first block comment.
//!
//! A file that is vendored on its own may declare its manifest in a comment
//! between `/*` and `*/`. The comment opens at the first `/*` of the text and
//! closes at the first `*/` that follows the opening delimiter. What stands
//! between the two is the manifest, line breaks included.

use vstd::prelude::*;
use crate::text::{
    append_plain_line_ends, chars_of, find_pair, first_pair, first_pair_from,
    lemma_first_pair_from, lemma_first_pair_is, lemma_plain_line_ends_without_cr, pair_at,
    plain_line_ends, text_of, trimmed, trimmed_string,
};

verus! {

/// What the first block comment of `text` holds: the text between the first
/// `/*` and the first `*/` that begins after it, with its line ends in one
/// form and without the white space around it. Nothing where no comment
/// opens, or where the one that opens is never closed.
pub open spec fn first_block_comment(text: Seq<char>) -> Option<Seq<char>> {
    match first_pair(text, '/', '*') {
        None => None,
        Some(open) => match first_pair_from(text, '*', '/', open + 2) {
            None => None,
            Some(close) => Some(trimmed(plain_line_ends(text.subrange(open + 2, close)))),
        },
    }
}

/// Scans `text` from the top for its first block comment and returns what
/// the comment holds.
pub fn extract_first_block_comment(text: &str) -> (comment: Option<String>)
    ensures
        text_of(comment) == first_block_comment(text@),
{
    let chars = chars_of(text);
    match find_pair(&chars, '/', '*', 0) {
        None => None,
        Some(open) => match find_pair(&chars, '*', '/', open + 2) {
            None => None,
            Some(close) => {
                let mut body: Vec<char> = Vec::new();
                append_plain_line_ends(&mut body, &chars, open + 2, close);
                assert(body@ =~= plain_line_ends(text@.subrange(open as int + 2, close as int)));
                Some(trimmed_string(&body))
            },
        },
    }
}

/// A text in which `/*` stands nowhere holds no block comment.
pub proof fn lemma_no_opening_no_comment(text: Seq<char>)
    requires
        forall|j: int| !pair_at(text, j, '/', '*'),
    ensures
        first_block_comment(text) is None,
{
    lemma_first_pair_from(text, '/', '*', 0);
}

/// A comment that is never closed holds nothing: where `*/` stands nowhere
/// after the first `/*`, nothing is found.
pub proof fn lemma_unclosed_comment(text: Seq<char>, open: int)
    requires
        0 <= open,
        pair_at(text, open, '/', '*'),
        forall|j: int| 0 <= j < open ==> !pair_at(text, j, '/', '*'),
        forall|j: int| open + 2 <= j ==> !pair_at(text, j, '*', '/'),
    ensures
        first_block_comment(text) is None,
{
    lemma_first_pair_is(text, '/', '*', 0, open);
    lemma_first_pair_from(text, '*', '/', open + 2);
}

/// The comment holds what stands between its delimiters: where `open` is the
/// first index at which `/*` stands, and `close` the first index at or after
/// `open + 2` at which `*/` stands, the result is that stretch of the text,
/// with its line ends in one form and without the white space around it.
pub proof fn lemma_comment_between_delimiters(text: Seq<char>, open: int, close: int)
    requires
        0 <= open,
        pair_at(text, open, '/', '*'),
        forall|j: int| 0 <= j < open ==> !pair_at(text, j, '/', '*'),
        open + 2 <= close,
        pair_at(text, close, '*', '/'),
        forall|j: int| open + 2 <= j < close ==> !pair_at(text, j, '*', '/'),
    ensures
        first_block_comment(text) == Some(
            trimmed(plain_line_ends(text.subrange(open + 2, close))),
        ),
{
    lemma_first_pair_is(text, '/', '*', 0, open);
    lemma_first_pair_is(text, '*', '/', open + 2, close);
}

/// In a text without carriage returns the comment holds exactly the text
/// between its delimiters, every line feed included, without the white space
/// around it.
pub proof fn lemma_comment_without_carriage_returns(text: Seq<char>, open: int, close: int)
    requires
        forall|k: int| 0 <= k < text.len() ==> text[k] != '\r',
        0 <= open,
        pair_at(text, open, '/', '*'),
        forall|j: int| 0 <= j < open ==> !pair_at(text, j, '/', '*'),
        open + 2 <= close,
        pair_at(text, close, '*', '/'),
        forall|j: int| open + 2 <= j < close ==> !pair_at(text, j, '*', '/'),
    ensures
        first_block_comment(text) == Some(trimmed(text.subrange(open + 2, close))),
{
    lemma_comment_between_delimiters(text, open, close);
    lemma_plain_line_ends_without_cr(text.subrange(open + 2, close));
}

} // verus!
