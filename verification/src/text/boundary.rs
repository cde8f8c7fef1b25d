//! Grapheme and word boundaries of single-line texts, and the selection rules built on them.
use std::ops::Range;
use vstd::prelude::*;

use super::segment::{
    grapheme_starts, grapheme_starts_of, has_word, is_word_piece, lemma_pieces_ordered,
    piece_starts_wf, pieces_cover, span_text, spans_ordered, unicode_words, unicode_words_of,
    word_bound_pieces, word_bound_pieces_of,
};
use super::utf::{
    char_index_of_byte, is_char_boundary, lemma_boundary_le_len, lemma_byte_to_char_of_char_to_byte, lemma_byte_to_char_bounds, lemma_table_len_fits, lemma_byte_to_char_mono, table_substring,
    lemma_utf16_le_utf8, text_len, utf16_offset_to_utf8, utf16_to_utf8, utf8_len,
    utf8_offset_to_utf16, utf8_to_utf16, CharTable,
};

verus! {

/// `r` is the last element of `g` below `x` (or 0 when no element is below `x`);
/// for increasing `g` this is the greatest element below `x`.
pub open spec fn is_last_below(g: Seq<usize>, x: int, r: int) -> bool {
    ||| (r == 0 && forall|j: int| 0 <= j < g.len() ==> #[trigger] g[j] >= x)
    ||| (exists|i: int|
        0 <= i < g.len() && #[trigger] g[i] == r && r < x && forall|j: int|
            0 <= j < g.len() && #[trigger] g[j] < x ==> g[j] <= r)
}

/// `r` is the least element of `g` above `x` (or `default` when no element is above `x`).
pub open spec fn is_first_above(g: Seq<usize>, x: int, r: int, default: int) -> bool {
    ||| (r == default && forall|j: int| 0 <= j < g.len() ==> #[trigger] g[j] <= x)
    ||| (exists|i: int|
        0 <= i < g.len() && #[trigger] g[i] == r && r > x && forall|j: int|
            0 <= j < g.len() && #[trigger] g[j] > x ==> r <= g[j])
}

/// `b` is a grapheme boundary of `s`: the start of a grapheme cluster or the end of the text.
pub open spec fn is_grapheme_boundary(s: Seq<char>, b: int) -> bool {
    &&& 0 <= b <= utf8_len(s)
    &&& {
        ||| b == utf8_len(s)
        ||| exists|i: int|
            0 <= i < grapheme_starts_of(s).len() && #[trigger] grapheme_starts_of(s)[i] == b
    }
}

/// Distance between two offsets.
pub open spec fn dist(a: int, b: int) -> int {
    if a <= b {
        b - a
    } else {
        a - b
    }
}

/// `r` is the grapheme boundary of `s` nearest to `o`; of two equally near boundaries the
/// earlier one is taken.
pub open spec fn is_nearest_grapheme_boundary(s: Seq<char>, o: int, r: int) -> bool {
    &&& is_grapheme_boundary(s, r)
    &&& forall|b: int|
        #[trigger] is_grapheme_boundary(s, b) ==> dist(r, o) < dist(b, o) || (dist(r, o) == dist(
            b,
            o,
        ) && r <= b)
}

/// The grapheme boundary nearest to the offset `o`, clamped to the text.
pub open spec fn nearest_grapheme_boundary_of(s: Seq<char>, o: int) -> int {
    let c = if o < utf8_len(s) {
        o
    } else {
        utf8_len(s) as int
    };
    choose|r: int| is_nearest_grapheme_boundary(s, c, r)
}

/// There is at most one nearest boundary.
pub proof fn lemma_nearest_unique(s: Seq<char>, o: int, r1: int, r2: int)
    requires
        is_nearest_grapheme_boundary(s, o, r1),
        is_nearest_grapheme_boundary(s, o, r2),
    ensures
        r1 == r2,
{
    assert(is_grapheme_boundary(s, r1));
    assert(is_grapheme_boundary(s, r2));
}

/// A grapheme boundary is its own nearest boundary.
pub proof fn lemma_boundary_is_nearest(s: Seq<char>, b: int)
    requires
        is_grapheme_boundary(s, b),
    ensures
        is_nearest_grapheme_boundary(s, b, b),
{
}

/// The last grapheme start before `offset` (0 when there is none).
pub fn previous_grapheme_boundary(text: &str, offset: usize) -> (r: usize)
    ensures
        is_last_below(grapheme_starts_of(text@), offset as int, r as int),
{
    let starts = grapheme_starts(text);
    let ghost g = starts@;
    let mut result: usize = 0;
    let mut i: usize = 0;
    while i < starts.len()
        invariant
            g == starts@,
            g == grapheme_starts_of(text@),
            piece_starts_wf(text@, g),
            i <= g.len(),
            forall|j: int| 0 <= j < i ==> #[trigger] g[j] < offset,
            i == 0 ==> result == 0,
            i > 0 ==> result == g[i - 1],
        decreases g.len() - i,
    {
        if starts[i] >= offset {
            assert forall|j: int| 0 <= j < g.len() && #[trigger] g[j] < offset implies g[j]
                <= result by {
                if j >= i {
                    if j > i {
                        assert(g[i as int] < g[j]);
                    }
                } else if j < i - 1 {
                    assert(g[j] < g[i - 1]);
                }
            }
            if i > 0 {
                assert(g[i - 1] == result);
            }
            return result;
        }
        result = starts[i];
        i += 1;
    }
    proof {
        if i > 0 {
            assert(g[i - 1] == result);
            assert forall|j: int| 0 <= j < g.len() && #[trigger] g[j] < offset implies g[j]
                <= result by {
                if j < i - 1 {
                    assert(g[j] < g[i - 1]);
                }
            }
        }
    }
    result
}

/// The first grapheme start after `offset` (the text's length when there is none).
pub fn next_grapheme_boundary(text: &str, offset: usize) -> (r: usize)
    ensures
        is_first_above(grapheme_starts_of(text@), offset as int, r as int, utf8_len(text@) as int),
        r <= utf8_len(text@),
        offset < r || r == utf8_len(text@),
        is_char_boundary(text@, r as int),
{
    let starts = grapheme_starts(text);
    let ghost g = starts@;
    let mut i: usize = 0;
    while i < starts.len()
        invariant
            g == starts@,
            g == grapheme_starts_of(text@),
            piece_starts_wf(text@, g),
            i <= g.len(),
            forall|j: int| 0 <= j < i ==> #[trigger] g[j] <= offset,
        decreases g.len() - i,
    {
        if starts[i] > offset {
            assert forall|j: int| 0 <= j < g.len() && #[trigger] g[j] > offset implies g[i as int]
                <= g[j] by {
                if j < i {
                } else if j > i {
                    assert(g[i as int] < g[j]);
                }
            }
            return starts[i];
        }
        i += 1;
    }
    proof {
        lemma_byte_to_char_of_char_to_byte(text@, text@.len() as int);
        assert(text@.take(text@.len() as int) =~= text@);
    }
    text_len(text)
}

/// Whether `offset` is one of the grapheme starts of `text`.
fn is_grapheme_start(text: &str, offset: usize) -> (r: bool)
    ensures
        r == exists|i: int|
            0 <= i < grapheme_starts_of(text@).len() && #[trigger] grapheme_starts_of(text@)[i]
                == offset,
{
    let starts = grapheme_starts(text);
    let ghost g = starts@;
    let mut i: usize = 0;
    while i < starts.len()
        invariant
            g == starts@,
            g == grapheme_starts_of(text@),
            i <= g.len(),
            forall|j: int| 0 <= j < i ==> #[trigger] g[j] != offset,
        decreases g.len() - i,
    {
        if starts[i] == offset {
            return true;
        }
        i += 1;
    }
    false
}

/// The grapheme boundary nearest to `offset` (clamped to the text); ties go to the earlier one.
pub fn nearest_grapheme_boundary(text: &str, offset: usize) -> (r: usize)
    ensures
        r == nearest_grapheme_boundary_of(text@, offset as int),
        is_grapheme_boundary(text@, r as int),
        is_char_boundary(text@, r as int),
        r <= utf8_len(text@),
{
    let ghost s = text@;
    let ghost g = grapheme_starts_of(s);
    let len = text_len(text);
    let offset = if offset < len {
        offset
    } else {
        len
    };
    let starts = grapheme_starts(text);
    if offset == len || is_grapheme_start(text, offset) {
        proof {
            lemma_boundary_is_nearest(s, offset as int);
            lemma_nearest_is_choice(s, offset as int, offset as int);
            lemma_grapheme_boundary_is_char_boundary(s, offset as int);
        }
        return offset;
    }
    let before = previous_grapheme_boundary(text, offset + 1);
    let after = next_grapheme_boundary(text, before);
    proof {
        // `before` is the last start at or before `offset`; `0` is a start since the text is
        // not empty, so `before` is a start.
        assert(g[0] == 0);
        assert(before < offset);
        assert(exists|i: int| 0 <= i < g.len() && #[trigger] g[i] == before);
        // every start after `before` lies after `offset`
        assert(after > offset);
        assert forall|b: int| #[trigger] is_grapheme_boundary(s, b) implies b <= before || b
            >= after by {
            if b != utf8_len(s) {
                let i = choose|i: int| 0 <= i < g.len() && #[trigger] g[i] == b;
                if g[i] > before {
                    assert(g[i] > offset);
                }
            }
        }
    }
    let r = if offset - before <= after.saturating_sub(offset) {
        before
    } else {
        after
    };
    proof {
        assert(is_grapheme_boundary(s, before as int));
        assert(is_grapheme_boundary(s, after as int));
        assert(is_nearest_grapheme_boundary(s, offset as int, r as int));
        lemma_nearest_is_choice(s, offset as int, r as int);
        lemma_grapheme_boundary_is_char_boundary(s, r as int);
    }
    r
}

/// Grapheme boundaries are character boundaries.
pub proof fn lemma_grapheme_boundary_is_char_boundary(s: Seq<char>, b: int)
    requires
        piece_starts_wf(s, grapheme_starts_of(s)),
        is_grapheme_boundary(s, b),
    ensures
        is_char_boundary(s, b),
{
    if b == utf8_len(s) {
        lemma_byte_to_char_of_char_to_byte(s, s.len() as int);
        assert(s.take(s.len() as int) =~= s);
    } else {
        let i = choose|i: int|
            0 <= i < grapheme_starts_of(s).len() && #[trigger] grapheme_starts_of(s)[i] == b;
    }
}

proof fn lemma_nearest_is_choice(s: Seq<char>, c: int, r: int)
    requires
        is_nearest_grapheme_boundary(s, c, r),
        c <= utf8_len(s),
    ensures
        nearest_grapheme_boundary_of(s, c) == r,
{
    let x = choose|x: int| is_nearest_grapheme_boundary(s, c, x);
    lemma_nearest_unique(s, c, x, r);
}

/// The offsets of `text` that `nearest_grapheme_boundary` maps a selection end to, ordered.
pub open spec fn normalized_selection_of(s: Seq<char>, range: Range<usize>) -> (int, int) {
    let a = nearest_grapheme_boundary_of(s, range.start as int);
    let b = nearest_grapheme_boundary_of(s, range.end as int);
    if a <= b {
        (a, b)
    } else {
        (b, a)
    }
}

/// Moves both ends of `range` to their nearest grapheme boundaries and orders them.
pub fn normalize_selection(text: &str, range: Range<usize>) -> (r: Range<usize>)
    ensures
        (r.start as int, r.end as int) == normalized_selection_of(text@, range),
        r.start <= r.end <= utf8_len(text@),
        is_grapheme_boundary(text@, r.start as int),
        is_grapheme_boundary(text@, r.end as int),
        is_char_boundary(text@, r.start as int),
        is_char_boundary(text@, r.end as int),
{
    let start = nearest_grapheme_boundary(text, range.start);
    let end = nearest_grapheme_boundary(text, range.end);
    if start <= end {
        start..end
    } else {
        end..start
    }
}

/// Normalizing a normalized selection leaves it unchanged.
pub proof fn lemma_normalize_selection_idempotent(s: Seq<char>, range: Range<usize>)
    requires
        is_grapheme_boundary(s, range.start as int),
        is_grapheme_boundary(s, range.end as int),
        range.start <= range.end,
    ensures
        normalized_selection_of(s, range) == (range.start as int, range.end as int),
{
    lemma_boundary_is_nearest(s, range.start as int);
    lemma_boundary_is_nearest(s, range.end as int);
    lemma_nearest_is_choice(s, range.start as int, range.start as int);
    lemma_nearest_is_choice(s, range.end as int, range.end as int);
}

/// `r` is the last start of a word piece of `s` before `x` (0 when there is none).
pub open spec fn is_last_word_start_below(s: Seq<char>, x: int, r: int) -> bool {
    let p = word_bound_pieces_of(s);
    ||| (r == 0 && forall|j: int|
        0 <= j < p.len() && #[trigger] is_word_piece(s, j) ==> p[j].0 >= x)
    ||| (exists|i: int|
        0 <= i < p.len() && #[trigger] is_word_piece(s, i) && p[i].0 == r && r < x && forall|j: int|
            0 <= j < p.len() && #[trigger] is_word_piece(s, j) && p[j].0 < x ==> p[j].0 <= r)
}

/// `r` is the first end of a word piece of `s` after `x` (the text's length when there is none).
pub open spec fn is_first_word_end_above(s: Seq<char>, x: int, r: int) -> bool {
    let p = word_bound_pieces_of(s);
    ||| (r == utf8_len(s) && forall|j: int|
        0 <= j < p.len() && #[trigger] is_word_piece(s, j) ==> p[j].0 + p[j].1 <= x)
    ||| (exists|i: int|
        0 <= i < p.len() && #[trigger] is_word_piece(s, i) && p[i].0 + p[i].1 == r && r > x
            && forall|j: int|
            0 <= j < p.len() && #[trigger] is_word_piece(s, j) && p[j].0 + p[j].1 > x ==> r <= p[j].0
                + p[j].1)
}

/// Whether word-boundary piece `i` of `text` holds a word.
pub(crate) fn piece_has_word(text: &str, table: &CharTable, pieces: &Vec<(usize, usize)>, i: usize) -> (r:
    bool)
    requires
        table.describes(text@),
        pieces@ == word_bound_pieces_of(text@),
        pieces_cover(text@, pieces@),
        i < pieces@.len(),
    ensures
        r == is_word_piece(text@, i as int),
{
    let (start, len) = pieces[i];
    proof {
        lemma_table_len_fits(table, text@);
        lemma_boundary_le_len(text@, start + len);
        lemma_byte_to_char_bounds(text@, start + len);
        lemma_byte_to_char_mono(text@, start as int, start + len);
    }
    let a = char_index_of_byte(table, start);
    let b = char_index_of_byte(table, start + len);
    let piece = table_substring(table, a, b);
    proof {
        assert(piece@ == span_text(text@, pieces@[i as int]));
    }
    has_word(piece.as_str())
}

/// The last start of a word before `offset` (0 when there is none).
pub fn previous_word_boundary(text: &str, offset: usize) -> (r: usize)
    ensures
        is_last_word_start_below(text@, offset as int, r as int),
{
    let table = CharTable::new(text);
    let pieces = word_bound_pieces(text);
    let ghost p = pieces@;
    let mut result: usize = 0;
    let mut found = false;
    let mut i: usize = 0;
    while i < pieces.len()
        invariant
            table.describes(text@),
            p == pieces@,
            p == word_bound_pieces_of(text@),
            pieces_cover(text@, p),
            i <= p.len(),
            forall|j: int| 0 <= j < i && #[trigger] is_word_piece(text@, j) ==> p[j].0 < offset,
            !found ==> result == 0 && forall|j: int|
                0 <= j < i ==> !#[trigger] is_word_piece(text@, j),
            found ==> exists|k: int|
                0 <= k < i && #[trigger] is_word_piece(text@, k) && p[k].0 == result && forall|j: int|
                    k < j < i ==> !#[trigger] is_word_piece(text@, j),
        decreases p.len() - i,
    {
        if piece_has_word(text, &table, &pieces, i) {
            if pieces[i].0 >= offset {
                proof {
                    assert forall|j: int|
                        0 <= j < p.len() && #[trigger] is_word_piece(text@, j) && p[j].0
                            < offset implies p[j].0 <= result by {
                        if j > i {
                            lemma_pieces_ordered(text@, p, i as int, j);
                        }
                        if found {
                            let k = choose|k: int|
                                0 <= k < i && #[trigger] is_word_piece(text@, k) && p[k].0 == result
                                    && forall|j: int| k < j < i ==> !#[trigger] is_word_piece(text@, j);
                            if j < k {
                                lemma_pieces_ordered(text@, p, j, k);
                            }
                        }
                    }
                }
                return result;
            }
            result = pieces[i].0;
            found = true;
        }
        i += 1;
    }
    proof {
        assert forall|j: int|
            0 <= j < p.len() && #[trigger] is_word_piece(text@, j) && p[j].0 < offset implies p[j].0
            <= result by {
            if found {
                let k = choose|k: int|
                    0 <= k < i && #[trigger] is_word_piece(text@, k) && p[k].0 == result && forall|j: int|
                        k < j < i ==> !#[trigger] is_word_piece(text@, j);
                if j < k {
                    lemma_pieces_ordered(text@, p, j, k);
                }
            }
        }
    }
    result
}

/// The first end of a word after `offset` (the text's length when there is none).
pub fn next_word_boundary(text: &str, offset: usize) -> (r: usize)
    ensures
        is_first_word_end_above(text@, offset as int, r as int),
{
    let table = CharTable::new(text);
    let pieces = word_bound_pieces(text);
    let ghost p = pieces@;
    let mut i: usize = 0;
    while i < pieces.len()
        invariant
            table.describes(text@),
            p == pieces@,
            p == word_bound_pieces_of(text@),
            pieces_cover(text@, p),
            i <= p.len(),
            forall|j: int|
                0 <= j < i && #[trigger] is_word_piece(text@, j) ==> p[j].0 + p[j].1 <= offset,
        decreases p.len() - i,
    {
        if piece_has_word(text, &table, &pieces, i) {
            let (start, len) = pieces[i];
            proof {
                lemma_table_len_fits(&table, text@);
                lemma_boundary_le_len(text@, start + len);
            }
            if start + len > offset {
                proof {
                    assert forall|j: int|
                        0 <= j < p.len() && #[trigger] is_word_piece(text@, j) && p[j].0 + p[j].1
                            > offset implies start + len <= p[j].0 + p[j].1 by {
                        if j > i {
                            lemma_pieces_ordered(text@, p, i as int, j);
                        }
                    }
                }
                return start + len;
            }
        }
        i += 1;
    }
    text_len(text)
}

/// The byte span `(start, length)` contains offset `o`.
pub open spec fn span_contains(span: (usize, usize), o: int) -> bool {
    span.0 <= o < span.0 + span.1
}

/// The offset that `word_range_at` looks at: `offset` clamped to the last byte of `s`.
pub open spec fn word_probe(s: Seq<char>, offset: int) -> int {
    if offset < utf8_len(s) - 1 {
        offset
    } else {
        utf8_len(s) - 1
    }
}

/// Word `i` of `w` is the first one that contains `o`.
pub open spec fn is_first_word_containing(w: Seq<(usize, usize)>, o: int, i: int) -> bool {
    &&& 0 <= i < w.len()
    &&& span_contains(w[i], o)
    &&& forall|j: int| 0 <= j < i ==> !#[trigger] span_contains(w[j], o)
}

/// What `word_range_at` selects at offset `offset` of `s`: the first word that contains
/// the (clamped) offset, or else the grapheme cluster at the nearest boundary.
pub open spec fn is_word_range_at(s: Seq<char>, offset: int, r: Range<usize>) -> bool {
    if s.len() == 0 {
        r.start == 0 && r.end == 0
    } else {
        let w = unicode_words_of(s);
        ||| exists|i: int|
            #[trigger] is_first_word_containing(w, word_probe(s, offset), i) && r.start == w[i].0
                && r.end == w[i].0 + w[i].1
        ||| (forall|i: int| 0 <= i < w.len() ==> !#[trigger] span_contains(w[i], word_probe(s, offset)))
            && r.start == nearest_grapheme_boundary_of(s, word_probe(s, offset)) && is_first_above(
            grapheme_starts_of(s),
            r.start as int,
            r.end as int,
            utf8_len(s) as int,
        )
    }
}

/// The word at `offset`, or the grapheme cluster there when no word covers it.
pub fn word_range_at(text: &str, offset: usize) -> (r: Range<usize>)
    ensures
        is_word_range_at(text@, offset as int, r),
        r.start <= r.end <= utf8_len(text@),
        is_char_boundary(text@, r.start as int),
        is_char_boundary(text@, r.end as int),
{
    let len = text_len(text);
    if len == 0 {
        proof {
            lemma_utf16_le_utf8(text@);
            lemma_byte_to_char_of_char_to_byte(text@, 0);
            assert(text@.take(0) =~= Seq::<char>::empty());
        }
        return 0..0;
    }
    proof {
        lemma_utf16_le_utf8(text@);
    }
    let o = if offset < len - 1 {
        offset
    } else {
        len - 1
    };
    let words = unicode_words(text);
    let ghost w = words@;
    let mut i: usize = 0;
    while i < words.len()
        invariant
            w == words@,
            w == unicode_words_of(text@),
            spans_ordered(text@, w),
            len == utf8_len(text@),
            len > 0,
            o == (if offset < len - 1 {
                offset
            } else {
                (len - 1) as usize
            }),
            i <= w.len(),
            forall|j: int| 0 <= j < i ==> !#[trigger] span_contains(w[j], o as int),
        decreases w.len() - i,
    {
        let (start, word_len) = words[i];
        assert(span_contains(w[i as int], o as int) == (start <= o && o < start + word_len));
        if o >= start && o - start < word_len {
            proof {
                if text@.len() == 0 {
                    assert(utf8_len(text@) == 0);
                }
                assert(is_first_word_containing(w, word_probe(text@, offset as int), i as int));
            }
            return start..start + word_len;
        }
        i += 1;
    }
    let start = nearest_grapheme_boundary(text, o);
    let end = next_grapheme_boundary(text, start);
    start..end
}

/// `v` is strictly increasing.
pub open spec fn strictly_increasing(v: Seq<usize>) -> bool {
    forall|i: int, j: int| #![trigger v[i], v[j]] 0 <= i < j < v.len() ==> v[i] < v[j]
}

/// Binary search of `x` in the strictly increasing `v`: `Ok(i)` when `v[i] == x`, otherwise
/// `Err(i)` with `i` the position at which `x` would be inserted.
pub fn search_sorted(v: &[usize], x: usize) -> (r: Result<usize, usize>)
    requires
        strictly_increasing(v@),
    ensures
        r matches Ok(i) ==> i < v@.len() && v@[i as int] == x,
        r matches Err(i) ==> i <= v@.len() && (forall|j: int| 0 <= j < i ==> #[trigger] v@[j] < x)
            && (forall|j: int| i <= j < v@.len() ==> #[trigger] v@[j] > x),
{
    let mut lo: usize = 0;
    let mut hi: usize = v.len();
    while lo < hi
        invariant
            lo <= hi <= v@.len(),
            strictly_increasing(v@),
            forall|j: int| 0 <= j < lo ==> #[trigger] v@[j] < x,
            forall|j: int| hi <= j < v@.len() ==> #[trigger] v@[j] > x,
        decreases hi - lo,
    {
        let mid = lo + (hi - lo) / 2;
        if v[mid] == x {
            return Ok(mid);
        } else if v[mid] < x {
            assert forall|j: int| 0 <= j < mid + 1 implies #[trigger] v@[j] < x by {
                if j < mid {
                    assert(v@[j] < v@[mid as int]);
                }
            }
            lo = mid + 1;
        } else {
            assert forall|j: int| mid <= j < v@.len() implies #[trigger] v@[j] > x by {
                if j > mid {
                    assert(v@[mid as int] < v@[j]);
                }
            }
            hi = mid;
        }
    }
    Err(lo)
}

/// `k` is the index of the element of `v` nearest to `o`; of two equally near elements the
/// earlier one is taken.
pub open spec fn is_nearest_index(v: Seq<usize>, o: int, k: int) -> bool {
    &&& 0 <= k < v.len()
    &&& forall|j: int|
        0 <= j < v.len() ==> dist(v[k] as int, o) < dist(#[trigger] v[j] as int, o) || (dist(
            v[k] as int,
            o,
        ) == dist(v[j] as int, o) && k <= j)
}

/// Maps `offset` to the element of `to` paired with the element of `from` nearest to it.
pub fn nearest_paired_boundary(offset: usize, from: &[usize], to: &[usize]) -> (r: usize)
    requires
        from@.len() == to@.len(),
        from@.len() > 0,
        strictly_increasing(from@),
    ensures
        exists|k: int| #[trigger] is_nearest_index(from@, offset as int, k) && r == to@[k],
{
    let n = from.len();
    let index = match search_sorted(from, offset) {
        Ok(index) => index,
        Err(index) => {
            if index == 0 {
                0
            } else if index == n {
                n - 1
            } else {
                let before = index - 1;
                if offset - from[before] <= from[index] - offset {
                    before
                } else {
                    index
                }
            }
        },
    };
    proof {
        let v = from@;
        assert forall|j: int| 0 <= j < v.len() implies dist(v[index as int] as int, offset as int)
            < dist(#[trigger] v[j] as int, offset as int) || (dist(
            v[index as int] as int,
            offset as int,
        ) == dist(v[j] as int, offset as int) && index <= j) by {
            if j < index {
                assert(v[j] < v[index as int]);
            } else if j > index {
                assert(v[index as int] < v[j]);
            }
        }
        assert(is_nearest_index(from@, offset as int, index as int));
    }
    to[index]
}

/// Converts a UTF-16 range to a UTF-8 range on grapheme boundaries.
pub fn range_from_utf16(text: &str, range: Range<usize>) -> (r: Range<usize>)
    ensures
        (r.start as int, r.end as int) == normalized_selection_of(
            text@,
            (utf16_offset_to_utf8(text@, range.start as int) as usize)..(utf16_offset_to_utf8(
                text@,
                range.end as int,
            ) as usize),
        ),
        r.start <= r.end <= utf8_len(text@),
        is_grapheme_boundary(text@, r.start as int),
        is_grapheme_boundary(text@, r.end as int),
        is_char_boundary(text@, r.start as int),
        is_char_boundary(text@, r.end as int),
{
    let start = utf16_to_utf8(text, range.start);
    let end = utf16_to_utf8(text, range.end);
    normalize_selection(text, start..end)
}

/// Converts a UTF-8 range to UTF-16 offsets.
pub fn range_to_utf16(text: &str, range: Range<usize>) -> (r: Range<usize>)
    ensures
        r.start == utf8_offset_to_utf16(text@, range.start as int),
        r.end == utf8_offset_to_utf16(text@, range.end as int),
{
    utf8_to_utf16(text, range.start)..utf8_to_utf16(text, range.end)
}

} // verus!
