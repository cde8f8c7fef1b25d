//! Unicode segmentation (UAX #29) of texts, from the `unicode-segmentation` crate.
//!
//! The segmentation tables are the crate's; this module names what its iterators
//! return and states the structural facts that its source shows: the pieces of a
//! text are consecutive, non-empty slices of it, so each piece starts on a
//! character boundary.
use unicode_segmentation::UnicodeSegmentation;
use vstd::prelude::*;

use super::utf::{byte_to_char, is_char_boundary, utf8_len};

verus! {

/// Byte offsets at which the extended grapheme clusters of a text start, in order.
pub uninterp spec fn grapheme_starts_of(text: Seq<char>) -> Seq<usize>;

/// Word-boundary pieces of a text (UAX #29), as `(start, byte length)` pairs, in order.
pub uninterp spec fn word_bound_pieces_of(text: Seq<char>) -> Seq<(usize, usize)>;

/// Words of a text: the word-boundary pieces that hold an alphanumeric character,
/// as `(start, byte length)` pairs, in order.
pub uninterp spec fn unicode_words_of(text: Seq<char>) -> Seq<(usize, usize)>;

/// The text holds at least one word (a word-boundary piece with an alphanumeric character).
pub uninterp spec fn contains_word(text: Seq<char>) -> bool;

/// The characters of `s` in the byte span `(start, length)`.
pub open spec fn span_text(s: Seq<char>, span: (usize, usize)) -> Seq<char> {
    s.subrange(byte_to_char(s, span.0 as int) as int, byte_to_char(s, span.0 + span.1) as int)
}

/// Piece `i` of the word-boundary pieces of `s` holds a word.
pub open spec fn is_word_piece(s: Seq<char>, i: int) -> bool {
    contains_word(span_text(s, word_bound_pieces_of(s)[i]))
}

/// Consecutive pieces are ordered: each earlier piece ends before a later one starts.
pub proof fn lemma_pieces_ordered(s: Seq<char>, pieces: Seq<(usize, usize)>, i: int, j: int)
    requires
        pieces_cover(s, pieces),
        0 <= i < j < pieces.len(),
    ensures
        pieces[i].0 + pieces[i].1 <= pieces[j].0,
        pieces[i].0 < pieces[j].0,
        pieces[i].0 + pieces[i].1 < pieces[j].0 + pieces[j].1,
    decreases j - i,
{
    assert(pieces[j - 1 + 1].0 == pieces[j - 1].0 + pieces[j - 1].1);
    assert(pieces[j].1 > 0);
    assert(pieces[i].1 > 0);
    if i < j - 1 {
        lemma_pieces_ordered(s, pieces, i, j - 1);
    }
}

/// `starts` are the starts of consecutive non-empty pieces that cover `s`.
pub open spec fn piece_starts_wf(s: Seq<char>, starts: Seq<usize>) -> bool {
    &&& (starts.len() == 0 <==> s.len() == 0)
    &&& (starts.len() > 0 ==> starts[0] == 0)
    &&& forall|i: int, j: int| 0 <= i < j < starts.len() ==> starts[i] < starts[j]
    &&& forall|i: int|
        0 <= i < starts.len() ==> #[trigger] starts[i] < utf8_len(s) && is_char_boundary(
            s,
            starts[i] as int,
        )
}

/// `pieces` are consecutive non-empty `(start, length)` pieces that cover `s`.
pub open spec fn pieces_cover(s: Seq<char>, pieces: Seq<(usize, usize)>) -> bool {
    &&& (pieces.len() == 0 <==> s.len() == 0)
    &&& (pieces.len() > 0 ==> pieces[0].0 == 0)
    &&& (pieces.len() > 0 ==> pieces.last().0 + pieces.last().1 == utf8_len(s))
    &&& forall|i: int|
        0 <= i < pieces.len() - 1 ==> #[trigger] pieces[i + 1].0 == pieces[i].0 + pieces[i].1
    &&& forall|i: int|
        0 <= i < pieces.len() ==> #[trigger] pieces[i].1 > 0 && is_char_boundary(
            s,
            pieces[i].0 as int,
        ) && is_char_boundary(s, pieces[i].0 + pieces[i].1)
}

/// `spans` are non-empty, non-overlapping `(start, length)` slices of `s`, in order.
pub open spec fn spans_ordered(s: Seq<char>, spans: Seq<(usize, usize)>) -> bool {
    &&& forall|i: int, j: int|
        #![trigger spans[i], spans[j]]
        0 <= i < j < spans.len() ==> spans[i].0 + spans[i].1 <= spans[j].0
    &&& forall|i: int|
        0 <= i < spans.len() ==> #[trigger] spans[i].1 > 0 && spans[i].0 + spans[i].1 <= utf8_len(
            s,
        ) && is_char_boundary(s, spans[i].0 as int) && is_char_boundary(
            s,
            spans[i].0 + spans[i].1,
        )
}

/// Grapheme cluster starts of `text`, from `UnicodeSegmentation::grapheme_indices(text, true)`.
///
/// The result is named by `grapheme_starts_of`; the iterator yields consecutive non-empty
/// slices of `text` from its start to its end, which the second clause states.
#[verifier::external_body]
pub(crate) fn grapheme_starts(text: &str) -> (r: Vec<usize>)
    ensures
        r@ == grapheme_starts_of(text@),
        piece_starts_wf(text@, r@),
{
    text.grapheme_indices(true).map(|(start, _)| start).collect()
}

/// Word-boundary pieces of `text`, from `UnicodeSegmentation::split_word_bound_indices`.
///
/// The result is named by `word_bound_pieces_of`; the crate documents that the pieces
/// concatenate to the text, which the second clause states.
#[verifier::external_body]
pub(crate) fn word_bound_pieces(text: &str) -> (r: Vec<(usize, usize)>)
    ensures
        r@ == word_bound_pieces_of(text@),
        pieces_cover(text@, r@),
{
    text.split_word_bound_indices().map(|(start, piece)| (start, piece.len())).collect()
}

/// Words of `text`, from `UnicodeSegmentation::unicode_word_indices`.
///
/// The result is named by `unicode_words_of`; the words are a subsequence of the
/// word-boundary pieces, which the second clause states.
#[verifier::external_body]
pub(crate) fn unicode_words(text: &str) -> (r: Vec<(usize, usize)>)
    ensures
        r@ == unicode_words_of(text@),
        spans_ordered(text@, r@),
{
    text.unicode_word_indices().map(|(start, word)| (start, word.len())).collect()
}

/// Whether `text` holds a word, from `UnicodeSegmentation::unicode_words(text).next().is_some()`.
#[verifier::external_body]
pub(crate) fn has_word(text: &str) -> (r: bool)
    ensures
        r == contains_word(text@),
{
    text.unicode_words().next().is_some()
}

} // verus!
