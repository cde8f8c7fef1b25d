//! Accessibility text runs of an input.
//!
//! Screen readers receive the text of an input as runs of at most
//! `MAX_CHARS_PER_TEXT_RUN` characters, each character given by its UTF-8 length in a
//! byte. A "character" here is an accessibility unit: a grapheme cluster, or, for a
//! cluster longer than `MAX_UNIT_BYTES` bytes, the greedy pieces of at most that many
//! bytes into which it is cut at character boundaries.
use vstd::prelude::*;

use crate::text::boundary::{is_grapheme_boundary, piece_has_word};
use crate::text::segment::{
    grapheme_starts, grapheme_starts_of, is_word_piece, piece_starts_wf, pieces_cover,
    word_bound_pieces, word_bound_pieces_of,
};
use crate::text::utf::{
    byte_to_char, char_index_of_byte, char_to_byte, is_char_boundary, lemma_boundary_le_len,
    lemma_byte_to_char_of_char_to_byte, lemma_char_to_byte_mono, lemma_table_len_fits,
    lemma_take_succ, text_len, utf8_len, utf8_width, CharTable,
};

verus! {

/// Largest byte length of one accessibility unit (the range of a `u8`).
pub const MAX_UNIT_BYTES: usize = 255;

/// Largest number of accessibility units in one text run.
pub const MAX_CHARS_PER_TEXT_RUN: usize = 255;

/// End of grapheme cluster `j` of `s`: the next cluster's start, or the text's end.
pub open spec fn grapheme_end(s: Seq<char>, j: int) -> int {
    let g = grapheme_starts_of(s);
    if j + 1 < g.len() {
        g[j + 1] as int
    } else {
        utf8_len(s) as int
    }
}

/// No grapheme cluster of `s` starts strictly between `a` and `e`.
pub open spec fn no_grapheme_start_between(s: Seq<char>, a: int, e: int) -> bool {
    forall|j: int|
        0 <= j < grapheme_starts_of(s).len() ==> !(a < #[trigger] grapheme_starts_of(s)[j] < e)
}

/// `(a, e)` is an accessibility unit of `s` that starts at `a`: a non-empty span of whole
/// characters inside one grapheme cluster, at most `MAX_UNIT_BYTES` long, that ends at the
/// cluster's end or where the next character would make it too long.
pub open spec fn is_a11y_unit(s: Seq<char>, a: int, e: int) -> bool {
    &&& 0 <= a < e <= a + MAX_UNIT_BYTES
    &&& is_char_boundary(s, a)
    &&& is_char_boundary(s, e)
    &&& no_grapheme_start_between(s, a, e)
    &&& (is_grapheme_boundary(s, e) || e + utf8_width(s[byte_to_char(s, e) as int]) > a
        + MAX_UNIT_BYTES)
}

/// `u` is a chain of consecutive accessibility units of `s` from offset 0 to `end`.
pub open spec fn units_reach(s: Seq<char>, u: Seq<(usize, usize)>, end: int) -> bool {
    &&& (u.len() == 0 ==> end == 0)
    &&& (u.len() > 0 ==> u[0].0 == 0 && u.last().1 == end)
    &&& forall|i: int| 0 <= i < u.len() - 1 ==> #[trigger] u[i + 1].0 == u[i].1
    &&& forall|i: int| 0 <= i < u.len() ==> #[trigger] is_a11y_unit(s, u[i].0 as int, u[i].1 as int)
}

/// `u` is the sequence of accessibility units of `s`, as `(start, end)` byte ranges.
pub open spec fn a11y_units_wf(s: Seq<char>, u: Seq<(usize, usize)>) -> bool {
    units_reach(s, u, utf8_len(s) as int)
}

/// A word of `s` (a word-boundary piece that holds a word) starts in `[a, e)`.
pub open spec fn word_starts_within(s: Seq<char>, a: int, e: int) -> bool {
    exists|i: int|
        0 <= i < word_bound_pieces_of(s).len() && #[trigger] is_word_piece(s, i) && a
            <= word_bound_pieces_of(s)[i].0 < e
}

/// `a` starts a grapheme cluster of `s` in which a word starts.
pub open spec fn starts_word_grapheme(s: Seq<char>, a: int) -> bool {
    exists|j: int|
        0 <= j < grapheme_starts_of(s).len() && #[trigger] grapheme_starts_of(s)[j] == a
            && word_starts_within(s, a, grapheme_end(s, j))
}

/// For each word-boundary piece of `text`, whether it holds a word.
fn word_piece_flags(text: &str, table: &CharTable, pieces: &Vec<(usize, usize)>) -> (r: Vec<bool>)
    requires
        table.describes(text@),
        pieces@ == word_bound_pieces_of(text@),
        pieces_cover(text@, pieces@),
    ensures
        r@.len() == pieces@.len(),
        forall|i: int| 0 <= i < r@.len() ==> #[trigger] r@[i] == is_word_piece(text@, i),
{
    let mut flags: Vec<bool> = Vec::new();
    let mut i: usize = 0;
    while i < pieces.len()
        invariant
            table.describes(text@),
            pieces@ == word_bound_pieces_of(text@),
            pieces_cover(text@, pieces@),
            i <= pieces@.len(),
            flags@.len() == i,
            forall|k: int| 0 <= k < i ==> #[trigger] flags@[k] == is_word_piece(text@, k),
        decreases pieces@.len() - i,
    {
        let f = piece_has_word(text, table, pieces, i);
        flags.push(f);
        i += 1;
    }
    flags
}

/// Whether a word of the text starts in `[a, e)`.
fn word_start_between(
    text: &str,
    pieces: &Vec<(usize, usize)>,
    flags: &Vec<bool>,
    a: usize,
    e: usize,
) -> (r: bool)
    requires
        pieces@ == word_bound_pieces_of(text@),
        flags@.len() == pieces@.len(),
        forall|i: int| 0 <= i < flags@.len() ==> #[trigger] flags@[i] == is_word_piece(text@, i),
    ensures
        r == word_starts_within(text@, a as int, e as int),
{
    let mut i: usize = 0;
    while i < pieces.len()
        invariant
            pieces@ == word_bound_pieces_of(text@),
            flags@.len() == pieces@.len(),
            forall|k: int| 0 <= k < flags@.len() ==> #[trigger] flags@[k] == is_word_piece(text@, k),
            i <= pieces@.len(),
            forall|k: int|
                0 <= k < i && #[trigger] is_word_piece(text@, k) ==> !(a <= pieces@[k].0 < e),
        decreases pieces@.len() - i,
    {
        if flags[i] && a <= pieces[i].0 && pieces[i].0 < e {
            assert(is_word_piece(text@, i as int));
            return true;
        }
        i += 1;
    }
    false
}

/// Appends the accessibility units of the grapheme cluster `[gs, ge)` to `units`, and to
/// `marks` the mark `mark` for the first of them and `false` for the others.
fn push_grapheme_units(
    table: &CharTable,
    gs: usize,
    ge: usize,
    mark: bool,
    units: &mut Vec<(usize, usize)>,
    marks: &mut Vec<bool>,
)
    requires
        table.describes(table.chars@),
        gs < ge,
        is_char_boundary(table.chars@, gs as int),
        is_char_boundary(table.chars@, ge as int),
        old(marks)@.len() == old(units)@.len(),
    ensures
        ({
            let s = table.chars@;
            let base = old(units)@.len() as int;
            let u = final(units)@;
            let m = final(marks)@;
            &&& u.len() > base
            &&& m.len() == u.len()
            &&& u.subrange(0, base) == old(units)@
            &&& m.subrange(0, base) == old(marks)@
            &&& m[base] == mark
            &&& u[base].0 == gs
            &&& u.last().1 == ge
            &&& forall|k: int| base < k < u.len() ==> !#[trigger] m[k]
            &&& forall|k: int| base <= k < u.len() - 1 ==> #[trigger] u[k + 1].0 == u[k].1
            &&& forall|k: int|
                base <= k < u.len() ==> {
                    let a = (#[trigger] u[k]).0 as int;
                    let e = u[k].1 as int;
                    &&& gs <= a < e <= ge
                    &&& e <= a + MAX_UNIT_BYTES
                    &&& (k > base ==> gs < a)
                    &&& is_char_boundary(s, a)
                    &&& is_char_boundary(s, e)
                    &&& (e == ge || e + utf8_width(s[byte_to_char(s, e) as int]) > a
                        + MAX_UNIT_BYTES)
                }
        }),
{
    let ghost s = table.chars@;
    let base_len: usize = units.len();
    let ghost base = base_len as int;
    if ge - gs <= MAX_UNIT_BYTES {
        units.push((gs, ge));
        marks.push(mark);
        proof {
            assert(units@.subrange(0, base) =~= old(units)@);
            assert(marks@.subrange(0, base) =~= old(marks)@);
        }
        return;
    }
    let n = table.chars.len();
    proof {
        lemma_table_len_fits(table, s);
        lemma_boundary_le_len(s, ge as int);
        lemma_boundary_le_len(s, gs as int);
    }
    let k0 = char_index_of_byte(table, gs);
    let ghost kg = byte_to_char(s, ge as int) as int;
    proof {
        crate::text::utf::lemma_byte_to_char_bounds(s, ge as int);
        crate::text::utf::lemma_byte_to_char_bounds(s, gs as int);
        crate::text::utf::lemma_byte_to_char_mono(s, gs as int, ge as int);
        assert(table.starts@[k0 as int] == char_to_byte(s, k0 as int));
    }
    let mut k = k0;
    let mut unit_start = gs;
    let mut unit_len: usize = 0;
    while table.starts[k] < ge
        invariant
            s == table.chars@,
            table.describes(s),
            n == s.len(),
            gs < ge <= utf8_len(s),
            0 <= kg <= n,
            char_to_byte(s, kg) == ge,
            table.starts@[k0 as int] == gs,
            k0 <= k <= kg,
            gs <= unit_start <= table.starts@[k as int] <= ge,
            unit_len == table.starts@[k as int] - unit_start,
            unit_len <= MAX_UNIT_BYTES,
            k > k0 ==> unit_len > 0,
            is_char_boundary(s, unit_start as int),
            base == old(units)@.len(),
            base == base_len,
            marks@.len() == units@.len(),
            units@.len() >= base,
            units@.subrange(0, base) == old(units)@,
            marks@.subrange(0, base) == old(marks)@,
            units@.len() == base ==> unit_start == gs,
            units@.len() > base ==> marks@[base] == mark && units@[base].0 == gs
                && units@.last().1 == unit_start && gs < unit_start,
            forall|j: int| base < j < units@.len() ==> !#[trigger] marks@[j],
            forall|j: int| base <= j < units@.len() - 1 ==> #[trigger] units@[j + 1].0 == units@[j].1,
            forall|j: int|
                base <= j < units@.len() ==> {
                    let a = (#[trigger] units@[j]).0 as int;
                    let e = units@[j].1 as int;
                    &&& gs <= a < e <= ge
                    &&& e <= a + MAX_UNIT_BYTES
                    &&& (j > base ==> gs < a)
                    &&& is_char_boundary(s, a)
                    &&& is_char_boundary(s, e)
                    &&& (e == ge || e + utf8_width(s[byte_to_char(s, e) as int]) > a
                        + MAX_UNIT_BYTES)
                },
        decreases kg - k,
    {
        proof {
            if k >= kg {
                lemma_char_to_byte_mono(s, kg, k as int);
            }
            assert(k < kg);
            lemma_take_succ(s, k as int);
            lemma_char_to_byte_mono(s, k + 1, kg);
            lemma_byte_to_char_of_char_to_byte(s, k as int);
        }
        let here = table.starts[k];
        let char_len = table.starts[k + 1] - here;
        if unit_len > 0 && unit_len + char_len > MAX_UNIT_BYTES {
            let first = units.len() == base_len;
            let ghost before = units@;
            units.push((unit_start, here));
            marks.push(if first {
                mark
            } else {
                false
            });
            proof {
                assert(units@.subrange(0, base) =~= old(units)@);
                assert(marks@.subrange(0, base) =~= old(marks)@);
                assert(units@[units@.len() - 1] == (unit_start, here));
                assert(forall|j: int| base <= j < before.len() ==> units@[j] == before[j]);
            }
            unit_start = here;
            unit_len = 0;
        }
        unit_len = unit_len + char_len;
        k = k + 1;
    }
    proof {
        if k == k0 {
            assert(table.starts@[k as int] == gs);
        }
    }
    let first = units.len() == base_len;
    let ghost before = units@;
    units.push((unit_start, ge));
    marks.push(if first {
        mark
    } else {
        false
    });
    proof {
        assert(units@.subrange(0, base) =~= old(units)@);
        assert(marks@.subrange(0, base) =~= old(marks)@);
        assert(forall|j: int| base <= j < before.len() ==> units@[j] == before[j]);
    }
}

/// The accessibility units of `text` together with, for each unit, whether it starts a
/// grapheme cluster in which a word starts.
fn units_and_marks(text: &str) -> (r: (Vec<(usize, usize)>, Vec<bool>))
    ensures
        a11y_units_wf(text@, r.0@),
        r.1@.len() == r.0@.len(),
        forall|k: int|
            0 <= k < r.0@.len() ==> #[trigger] r.1@[k] == starts_word_grapheme(
                text@,
                r.0@[k].0 as int,
            ),
{
    let ghost s = text@;
    let total = text_len(text);
    let table = CharTable::new(text);
    let starts = grapheme_starts(text);
    let pieces = word_bound_pieces(text);
    let flags = word_piece_flags(text, &table, &pieces);
    let ghost g = starts@;
    let mut units: Vec<(usize, usize)> = Vec::new();
    let mut marks: Vec<bool> = Vec::new();
    let mut j: usize = 0;
    proof {
        lemma_byte_to_char_of_char_to_byte(s, s.len() as int);
        assert(s.take(s.len() as int) =~= s);
    }
    while j < starts.len()
        invariant
            s == text@,
            table.describes(s),
            total == utf8_len(s),
            is_char_boundary(s, total as int),
            g == starts@,
            g == grapheme_starts_of(s),
            piece_starts_wf(s, g),
            pieces@ == word_bound_pieces_of(s),
            flags@.len() == pieces@.len(),
            forall|i: int| 0 <= i < flags@.len() ==> #[trigger] flags@[i] == is_word_piece(s, i),
            j <= g.len(),
            units_reach(s, units@, if j < g.len() { g[j as int] as int } else { total as int }),
            marks@.len() == units@.len(),
            forall|k: int|
                0 <= k < units@.len() ==> #[trigger] marks@[k] == starts_word_grapheme(
                    s,
                    units@[k].0 as int,
                ),
        decreases g.len() - j,
    {
        let gs = starts[j];
        let ge = if j + 1 < starts.len() {
            starts[j + 1]
        } else {
            total
        };
        let mark = word_start_between(text, &pieces, &flags, gs, ge);
        let ghost before_u = units@;
        let ghost before_m = marks@;
        proof {
            assert(g[j as int] < utf8_len(s));
            if j + 1 < g.len() {
                assert(g[j as int] < g[j + 1]);
            }
        }
        push_grapheme_units(&table, gs, ge, mark, &mut units, &mut marks);
        proof {
            let base = before_u.len() as int;
            assert(ge as int == grapheme_end(s, j as int));
            assert(is_grapheme_boundary(s, ge as int));
            assert forall|k: int| 0 <= k < units@.len() implies #[trigger] is_a11y_unit(
                s,
                units@[k].0 as int,
                units@[k].1 as int,
            ) by {
                if k < base {
                    assert(units@[k] == units@.subrange(0, base)[k]);
                } else {
                    let a = units@[k].0 as int;
                    let e = units@[k].1 as int;
                    assert forall|i: int| 0 <= i < g.len() implies !(a < #[trigger] g[i] < e) by {
                        if i <= j {
                            if i < j {
                                assert(g[i] < g[j as int]);
                            }
                        } else {
                            assert(j + 1 < g.len());
                            if i > j + 1 {
                                assert(g[j + 1] < g[i]);
                            }
                        }
                    }
                }
            }
            assert forall|k: int| 0 <= k < units@.len() - 1 implies #[trigger] units@[k + 1].0
                == units@[k].1 by {
                if k + 1 < base {
                    assert(units@[k] == units@.subrange(0, base)[k]);
                    assert(units@[k + 1] == units@.subrange(0, base)[k + 1]);
                } else if k + 1 == base {
                    assert(units@[k] == units@.subrange(0, base)[k]);
                }
            }
            assert forall|k: int| 0 <= k < units@.len() implies #[trigger] marks@[k]
                == starts_word_grapheme(s, units@[k].0 as int) by {
                if k < base {
                    assert(units@[k] == units@.subrange(0, base)[k]);
                    assert(marks@[k] == marks@.subrange(0, base)[k]);
                } else if k == base {
                    assert(g[j as int] == gs);
                    if starts_word_grapheme(s, gs as int) {
                        let i = choose|i: int|
                            0 <= i < g.len() && #[trigger] g[i] == gs && word_starts_within(
                                s,
                                gs as int,
                                grapheme_end(s, i),
                            );
                        if i < j {
                            assert(g[i] < g[j as int]);
                        } else if i > j {
                            assert(g[j as int] < g[i]);
                        }
                    }
                } else {
                    let a = units@[k].0 as int;
                    if starts_word_grapheme(s, a) {
                        let i = choose|i: int|
                            0 <= i < g.len() && #[trigger] g[i] == a && word_starts_within(
                                s,
                                a,
                                grapheme_end(s, i),
                            );
                        if i <= j {
                            if i < j {
                                assert(g[i] < g[j as int]);
                            }
                        } else {
                            if i > j + 1 {
                                assert(g[j + 1] < g[i]);
                            }
                        }
                    }
                }
            }
        }
        j += 1;
    }
    (units, marks)
}

/// The accessibility units of `s`.
pub open spec fn a11y_units_of(s: Seq<char>) -> Seq<(usize, usize)> {
    choose|u: Seq<(usize, usize)>| a11y_units_wf(s, u)
}

/// An accessibility unit is determined by its start.
pub proof fn lemma_unit_end_unique(s: Seq<char>, a: int, e1: int, e2: int)
    requires
        is_a11y_unit(s, a, e1),
        is_a11y_unit(s, a, e2),
    ensures
        e1 == e2,
{
    if e1 != e2 {
        let (x, y) = if e1 < e2 {
            (e1, e2)
        } else {
            (e2, e1)
        };
        lemma_boundary_le_len(s, y);
        let kx = byte_to_char(s, x) as int;
        let ky = byte_to_char(s, y) as int;
        crate::text::utf::lemma_byte_to_char_bounds(s, x);
        crate::text::utf::lemma_byte_to_char_bounds(s, y);
        if ky <= kx {
            lemma_char_to_byte_mono(s, ky, kx);
        }
        assert(kx < ky);
        lemma_take_succ(s, kx);
        lemma_char_to_byte_mono(s, kx + 1, ky);
        if is_grapheme_boundary(s, x) {
            if x != utf8_len(s) {
                let j = choose|j: int|
                    0 <= j < grapheme_starts_of(s).len() && #[trigger] grapheme_starts_of(s)[j] == x;
                assert(!(a < grapheme_starts_of(s)[j] < y));
            }
        }
    }
}

/// Consecutive units are ordered: a later unit starts at or after the end of an earlier one.
pub proof fn lemma_units_ordered(s: Seq<char>, u: Seq<(usize, usize)>, end: int, i: int, k: int)
    requires
        units_reach(s, u, end),
        0 <= i < k < u.len(),
    ensures
        u[i].1 <= u[k].0,
    decreases k - i,
{
    assert(u[k - 1 + 1].0 == u[k - 1].1);
    assert(is_a11y_unit(s, u[k - 1].0 as int, u[k - 1].1 as int));
    if i < k - 1 {
        lemma_units_ordered(s, u, end, i, k - 1);
    }
}

/// There is exactly one sequence of accessibility units of a text.
pub proof fn lemma_units_unique(s: Seq<char>, u: Seq<(usize, usize)>, v: Seq<(usize, usize)>)
    requires
        a11y_units_wf(s, u),
        a11y_units_wf(s, v),
    ensures
        u == v,
{
    let l = utf8_len(s) as int;
    let n = if u.len() <= v.len() {
        u.len() as int
    } else {
        v.len() as int
    };
    assert forall|i: int| 0 <= i < n implies u[i] == v[i] by {
        lemma_units_prefix_equal(s, u, v, i);
    }
    if u.len() != v.len() {
        let (w, x) = if u.len() < v.len() {
            (u, v)
        } else {
            (v, u)
        };
        let m = w.len() as int;
        if m == 0 {
            assert(is_a11y_unit(s, x[0].0 as int, x[0].1 as int));
            if x.len() > 1 {
                lemma_units_ordered(s, x, l, 0, x.len() - 1);
            }
            assert(is_a11y_unit(s, x.last().0 as int, x.last().1 as int));
        } else {
            assert(w[m - 1] == x[m - 1]);
            assert(x[m - 1 + 1].0 == x[m - 1].1);
            assert(is_a11y_unit(s, x[m].0 as int, x[m].1 as int));
            if m < x.len() - 1 {
                lemma_units_ordered(s, x, l, m, x.len() - 1);
            }
            assert(is_a11y_unit(s, x.last().0 as int, x.last().1 as int));
        }
    }
    assert(u =~= v);
}

proof fn lemma_units_prefix_equal(s: Seq<char>, u: Seq<(usize, usize)>, v: Seq<(usize, usize)>, i: int)
    requires
        a11y_units_wf(s, u),
        a11y_units_wf(s, v),
        0 <= i < u.len(),
        i < v.len(),
    ensures
        u[i] == v[i],
    decreases i,
{
    if i > 0 {
        lemma_units_prefix_equal(s, u, v, i - 1);
        assert(u[i - 1 + 1].0 == u[i - 1].1);
        assert(v[i - 1 + 1].0 == v[i - 1].1);
    }
    assert(is_a11y_unit(s, u[i].0 as int, u[i].1 as int));
    assert(is_a11y_unit(s, v[i].0 as int, v[i].1 as int));
    lemma_unit_end_unique(s, u[i].0 as int, u[i].1 as int, v[i].1 as int);
}

/// The accessibility units of `text`, as `(start, end)` byte ranges in order.
pub fn a11y_character_units(text: &str) -> (r: Vec<(usize, usize)>)
    ensures
        a11y_units_wf(text@, r@),
        r@ == a11y_units_of(text@),
{
    let (units, _) = units_and_marks(text);
    proof {
        lemma_units_unique(text@, units@, a11y_units_of(text@));
    }
    units
}

/// Number of accessibility units of `text`.
pub fn a11y_character_count(text: &str) -> (r: usize)
    ensures
        r == a11y_units_of(text@).len(),
{
    a11y_character_units(text).len()
}

/// `r` is the unit index that the byte offset `b` designates in the units `u`: 0 at the
/// start; inside a unit, the unit's own index when `b` is at least as near its start as
/// its end, else the next index; at a unit's end, the next index.
pub open spec fn is_unit_index_for(u: Seq<(usize, usize)>, b: int, r: int) -> bool {
    ||| (b <= 0 && r == 0)
    ||| exists|i: int|
        0 <= i < u.len() && #[trigger] u[i].0 < b <= u[i].1 && r == (if b == u[i].1 || b
            - u[i].0 > u[i].1 - b {
            i + 1
        } else {
            i
        })
}

/// The byte offset `b` clamped to the byte length of `s`.
pub open spec fn clamp_to_text(s: Seq<char>, b: int) -> int {
    if b < utf8_len(s) {
        b
    } else {
        utf8_len(s) as int
    }
}

/// The accessibility unit index that the byte offset `b` of `s` designates.
pub open spec fn a11y_unit_index(s: Seq<char>, b: int) -> int {
    choose|r: int| is_unit_index_for(a11y_units_of(s), clamp_to_text(s, b), r)
}

/// A byte offset designates one unit index.
pub proof fn lemma_unit_index_unique(s: Seq<char>, u: Seq<(usize, usize)>, b: int, r1: int, r2: int)
    requires
        a11y_units_wf(s, u),
        is_unit_index_for(u, b, r1),
        is_unit_index_for(u, b, r2),
    ensures
        r1 == r2,
{
    let l = utf8_len(s) as int;
    if b > 0 {
        let i1 = choose|i: int|
            0 <= i < u.len() && #[trigger] u[i].0 < b <= u[i].1 && r1 == (if b == u[i].1 || b
                - u[i].0 > u[i].1 - b {
                i + 1
            } else {
                i
            });
        let i2 = choose|i: int|
            0 <= i < u.len() && #[trigger] u[i].0 < b <= u[i].1 && r2 == (if b == u[i].1 || b
                - u[i].0 > u[i].1 - b {
                i + 1
            } else {
                i
            });
        if i1 < i2 {
            lemma_units_ordered(s, u, l, i1, i2);
        } else if i2 < i1 {
            lemma_units_ordered(s, u, l, i2, i1);
        }
    } else {
        if r1 != 0 || r2 != 0 {
            assert(u.len() > 0);
            assert(u[0].0 == 0);
            assert forall|i: int| 0 <= i < u.len() implies !(#[trigger] u[i].0 < b) by {
                if i > 0 {
                    lemma_units_ordered(s, u, l, 0, i);
                    assert(is_a11y_unit(s, u[0].0 as int, u[0].1 as int));
                }
            }
        }
    }
}

/// Searches `units` for the index that the byte offset `b` designates.
fn unit_index_in(text: &str, units: &Vec<(usize, usize)>, b: usize) -> (r: usize)
    requires
        a11y_units_wf(text@, units@),
        b <= utf8_len(text@),
    ensures
        is_unit_index_for(units@, b as int, r as int),
{
    let ghost s = text@;
    let ghost l = utf8_len(s) as int;
    let mut i: usize = 0;
    if b == 0 {
        return 0;
    }
    while i < units.len()
        invariant
            a11y_units_wf(s, units@),
            0 < b <= l,
            i <= units@.len(),
            i > 0 ==> units@[i - 1].1 < b,
        decreases units@.len() - i,
    {
        let (start, end) = units[i];
        proof {
            if i > 0 {
                assert(units@[i - 1 + 1].0 == units@[i - 1].1);
            }
            assert(is_a11y_unit(s, start as int, end as int));
        }
        if b < end {
            if b - start <= end - b {
                return i;
            } else {
                return i + 1;
            }
        } else if b == end {
            return i + 1;
        }
        i += 1;
    }
    proof {
        assert(units@.len() > 0);
    }
    units.len()
}

/// Index of the accessibility unit that the byte offset designates (clamped to the text).
pub fn a11y_unit_index_for_byte(text: &str, byte_offset: usize) -> (r: usize)
    ensures
        r == a11y_unit_index(text@, byte_offset as int),
{
    let units = a11y_character_units(text);
    let total = text_len(text);
    let b = if byte_offset < total {
        byte_offset
    } else {
        total
    };
    let r = unit_index_in(text, &units, b);
    proof {
        let c = clamp_to_text(text@, byte_offset as int);
        assert(is_unit_index_for(a11y_units_of(text@), c, r as int));
        lemma_unit_index_unique(text@, units@, c, r as int, a11y_unit_index(text@, byte_offset as int));
    }
    r
}

/// Converts a unit length to the byte that carries it.
pub fn checked_a11y_length(length: usize) -> (r: u8)
    requires
        length <= MAX_UNIT_BYTES,
    ensures
        r == length,
{
    length as u8
}

/// A position in the accessibility runs: a run index and a unit index inside that run.
#[derive(Clone, Copy, Debug, PartialEq, Eq, Structural)]
pub struct A11yTextPosition {
    /// Index of the run.
    pub chunk: u64,
    /// Index of the unit inside the run (it may equal the run's length: its end).
    pub character_index: usize,
}

/// The run position of unit index `ci`: a position on the boundary between two runs
/// belongs to the end of the earlier run.
pub open spec fn text_position_of(ci: int) -> (int, int) {
    let chunk = if ci <= 0 {
        0
    } else {
        (ci - 1) / (MAX_CHARS_PER_TEXT_RUN as int)
    };
    (chunk, ci - chunk * MAX_CHARS_PER_TEXT_RUN)
}

/// The run position of the unit index `character_index`.
pub fn a11y_text_position(character_index: usize) -> (r: A11yTextPosition)
    ensures
        r.chunk == text_position_of(character_index as int).0,
        r.character_index == text_position_of(character_index as int).1,
        character_index > 0 ==> 1 <= r.character_index <= MAX_CHARS_PER_TEXT_RUN,
{
    let ci = character_index;
    let chunk = if ci > 0 && ci % MAX_CHARS_PER_TEXT_RUN == 0 {
        ci / MAX_CHARS_PER_TEXT_RUN - 1
    } else {
        ci / MAX_CHARS_PER_TEXT_RUN
    };
    proof {
        if ci > 0 {
            assert(chunk == (ci - 1) / 255int) by (nonlinear_arith)
                requires
                    ci > 0,
                    ci % 255 == 0 ==> chunk == ci / 255 - 1,
                    ci % 255 != 0 ==> chunk == ci / 255,
            ;
            assert(1 <= ci - chunk * 255 <= 255) by (nonlinear_arith)
                requires
                    ci > 0,
                    chunk == (ci - 1) / 255int,
            ;
        }
    }
    A11yTextPosition { chunk: chunk as u64, character_index: ci - chunk * MAX_CHARS_PER_TEXT_RUN }
}

/// One accessibility text run: a slice of the text of at most `MAX_CHARS_PER_TEXT_RUN`
/// units, linked to its neighbours on the line.
#[derive(Debug)]
pub struct A11yTextRun {
    /// Index of the run (the host turns it into a node id).
    pub chunk: u64,
    /// Byte offset where the run's text starts.
    pub byte_start: usize,
    /// Byte offset where the run's text ends.
    pub byte_end: usize,
    /// UTF-8 length of each unit of the run.
    pub character_lengths: Vec<u8>,
    /// Indices (inside the run) of the units at which words start.
    pub word_starts: Vec<u8>,
    /// Index of the previous run on the line.
    pub previous: Option<u64>,
    /// Index of the next run on the line.
    pub next: Option<u64>,
}

/// Anchor and focus of the selection, as run positions.
#[derive(Clone, Copy, Debug, PartialEq, Eq, Structural)]
pub struct A11yTextSelection {
    /// Position of the selection's fixed end.
    pub anchor: A11yTextPosition,
    /// Position of the selection's moving end.
    pub focus: A11yTextPosition,
}

/// Number of runs for `n` units: one run even for an empty text.
pub open spec fn a11y_run_count(n: int) -> int {
    if n <= 0 {
        1
    } else {
        (n + MAX_CHARS_PER_TEXT_RUN - 1) / (MAX_CHARS_PER_TEXT_RUN as int)
    }
}

/// First unit index of run `c`.
pub open spec fn run_lo(c: int) -> int {
    c * MAX_CHARS_PER_TEXT_RUN
}

/// One past the last unit index of run `c`, for `n` units.
pub open spec fn run_hi(c: int, n: int) -> int {
    if run_lo(c) + MAX_CHARS_PER_TEXT_RUN < n {
        run_lo(c) + MAX_CHARS_PER_TEXT_RUN
    } else {
        n
    }
}

/// `run` is run `c` of `count` runs over the units of `s`.
pub open spec fn is_run_of(s: Seq<char>, count: int, c: int, run: A11yTextRun) -> bool {
    let u = a11y_units_of(s);
    let n = u.len() as int;
    let lo = run_lo(c);
    let hi = run_hi(c, n);
    &&& run.chunk == c
    &&& run.previous == (if c > 0 {
        Some((c - 1) as u64)
    } else {
        None
    })
    &&& run.next == (if c + 1 < count {
        Some((c + 1) as u64)
    } else {
        None
    })
    &&& run.character_lengths@.len() == hi - lo
    &&& forall|x: int|
        0 <= x < hi - lo ==> #[trigger] run.character_lengths@[x] == u[lo + x].1 - u[lo + x].0
    &&& run.byte_start == (if n == 0 {
        0
    } else {
        u[lo].0 as int
    })
    &&& run.byte_end == (if n == 0 {
        0
    } else {
        u[hi - 1].1 as int
    })
    &&& forall|t1: int, t2: int|
        0 <= t1 < t2 < run.word_starts@.len() ==> run.word_starts@[t1] < run.word_starts@[t2]
    &&& forall|t: int|
        0 <= t < run.word_starts@.len() ==> #[trigger] run.word_starts@[t] < hi - lo
            && starts_word_grapheme(s, u[lo + run.word_starts@[t]].0 as int)
    &&& forall|x: int|
        0 <= x < hi - lo && starts_word_grapheme(s, #[trigger] u[lo + x].0 as int)
            ==> run.word_starts@.contains(x as u8)
}

/// Builds run `c` from the units and their word marks.
fn build_run(
    text: &str,
    units: &Vec<(usize, usize)>,
    marks: &Vec<bool>,
    count: usize,
    c: usize,
) -> (r: A11yTextRun)
    requires
        units@ == a11y_units_of(text@),
        a11y_units_wf(text@, units@),
        marks@.len() == units@.len(),
        forall|k: int|
            0 <= k < units@.len() ==> #[trigger] marks@[k] == starts_word_grapheme(
                text@,
                units@[k].0 as int,
            ),
        count == a11y_run_count(units@.len() as int),
        c < count,
    ensures
        is_run_of(text@, count as int, c as int, r),
{
    let n = units.len();
    proof {
        if n > 0 {
            assert(c * 255 < n) by (nonlinear_arith)
                requires
                    n > 0,
                    c < (n + 254) / 255int,
            ;
        }
    }
    let lo = c * MAX_CHARS_PER_TEXT_RUN;
    let hi = if n - lo > MAX_CHARS_PER_TEXT_RUN {
        lo + MAX_CHARS_PER_TEXT_RUN
    } else {
        n
    };
    let mut lengths: Vec<u8> = Vec::new();
    let mut word_starts: Vec<u8> = Vec::new();
    let mut k = lo;
    while k < hi
        invariant
            lo <= k <= hi <= n,
            hi - lo <= MAX_CHARS_PER_TEXT_RUN,
            lo == run_lo(c as int),
            hi == run_hi(c as int, n as int),
            n == units@.len(),
            a11y_units_wf(text@, units@),
            marks@.len() == units@.len(),
            forall|j: int|
                0 <= j < units@.len() ==> #[trigger] marks@[j] == starts_word_grapheme(
                    text@,
                    units@[j].0 as int,
                ),
            lengths@.len() == k - lo,
            forall|x: int|
                0 <= x < k - lo ==> #[trigger] lengths@[x] == units@[lo + x].1 - units@[lo + x].0,
            forall|t1: int, t2: int|
                0 <= t1 < t2 < word_starts@.len() ==> word_starts@[t1] < word_starts@[t2],
            forall|t: int|
                0 <= t < word_starts@.len() ==> #[trigger] word_starts@[t] < k - lo
                    && marks@[lo + word_starts@[t]],
            forall|x: int|
                0 <= x < k - lo && #[trigger] marks@[lo + x] ==> word_starts@.contains(x as u8),
        decreases hi - k,
    {
        let (start, end) = units[k];
        proof {
            assert(is_a11y_unit(text@, start as int, end as int));
        }
        if marks[k] {
            let ghost before = word_starts@;
            word_starts.push(checked_a11y_length(k - lo));
            proof {
                assert forall|x: int| 0 <= x < k + 1 - lo && #[trigger] marks@[lo + x] implies word_starts@.contains(
                    x as u8,
                ) by {
                    if x < k - lo {
                        let t = choose|t: int| 0 <= t < before.len() && before[t] == x as u8;
                        assert(word_starts@[t] == x as u8);
                    } else {
                        assert(word_starts@[before.len() as int] == x as u8);
                    }
                }
            }
        }
        lengths.push(checked_a11y_length(end - start));
        k += 1;
    }
    proof {
        assert forall|x: int|
            0 <= x < hi - lo && starts_word_grapheme(text@, #[trigger] units@[lo + x].0 as int)
            implies word_starts@.contains(x as u8) by {
            assert(marks@[lo + x]);
        }
    }
    let byte_start = if n == 0 {
        0
    } else {
        units[lo].0
    };
    let byte_end = if n == 0 {
        0
    } else {
        units[hi - 1].1
    };
    A11yTextRun {
        chunk: c as u64,
        byte_start,
        byte_end,
        character_lengths: lengths,
        word_starts,
        previous: if c > 0 {
            Some((c - 1) as u64)
        } else {
            None
        },
        next: if c + 1 < count {
            Some((c + 1) as u64)
        } else {
            None
        },
    }
}

/// The accessibility runs of `text` and the selection `selection_tail..selection_head`
/// (byte offsets) as run positions.
pub fn build_a11y_text_runs(text: &str, selection_tail: usize, selection_head: usize) -> (r: (
    Vec<A11yTextRun>,
    A11yTextSelection,
))
    ensures
        r.0@.len() == a11y_run_count(a11y_units_of(text@).len() as int),
        forall|c: int|
            0 <= c < r.0@.len() ==> #[trigger] is_run_of(text@, r.0@.len() as int, c, r.0@[c]),
        r.1.anchor.chunk == text_position_of(a11y_unit_index(text@, selection_tail as int)).0,
        r.1.anchor.character_index == text_position_of(
            a11y_unit_index(text@, selection_tail as int),
        ).1,
        r.1.focus.chunk == text_position_of(a11y_unit_index(text@, selection_head as int)).0,
        r.1.focus.character_index == text_position_of(
            a11y_unit_index(text@, selection_head as int),
        ).1,
{
    let (units, marks) = units_and_marks(text);
    proof {
        lemma_units_unique(text@, units@, a11y_units_of(text@));
    }
    let n = units.len();
    let count = if n == 0 {
        1
    } else if n % MAX_CHARS_PER_TEXT_RUN == 0 {
        n / MAX_CHARS_PER_TEXT_RUN
    } else {
        n / MAX_CHARS_PER_TEXT_RUN + 1
    };
    proof {
        if n > 0 {
            assert(count == (n + 254) / 255int) by (nonlinear_arith)
                requires
                    n > 0,
                    n % 255 == 0 ==> count == n / 255,
                    n % 255 != 0 ==> count == n / 255 + 1,
            ;
        }
    }
    let mut runs: Vec<A11yTextRun> = Vec::new();
    let mut c: usize = 0;
    while c < count
        invariant
            units@ == a11y_units_of(text@),
            a11y_units_wf(text@, units@),
            marks@.len() == units@.len(),
            forall|k: int|
                0 <= k < units@.len() ==> #[trigger] marks@[k] == starts_word_grapheme(
                    text@,
                    units@[k].0 as int,
                ),
            n == units@.len(),
            count == a11y_run_count(n as int),
            c <= count,
            runs@.len() == c,
            forall|j: int| 0 <= j < c ==> #[trigger] is_run_of(text@, count as int, j, runs@[j]),
        decreases count - c,
    {
        let run = build_run(text, &units, &marks, count, c);
        runs.push(run);
        c += 1;
    }
    let anchor = a11y_text_position(a11y_unit_index_for_byte(text, selection_tail));
    let focus = a11y_text_position(a11y_unit_index_for_byte(text, selection_head));
    (runs, A11yTextSelection { anchor, focus })
}

/// The selection's tail and head: its fixed and its moving end.
pub fn a11y_selection_ends(start: usize, end: usize, reversed: bool) -> (r: (usize, usize))
    ensures
        r == (if reversed {
            (end, start)
        } else {
            (start, end)
        }),
{
    if reversed {
        (end, start)
    } else {
        (start, end)
    }
}

/// The value that assistive technology is told: it follows the displayed text while the
/// text is masked or the input is not focused, and stays as it was while the user types
/// into a focused plain input.
pub fn a11y_announced_value(stored: String, text: String, password_hidden: bool, focused: bool) -> (r:
    String)
    ensures
        r@ == (if password_hidden || !focused {
            text@
        } else {
            stored@
        }),
{
    if password_hidden || !focused {
        text
    } else {
        stored
    }
}

} // verus!
