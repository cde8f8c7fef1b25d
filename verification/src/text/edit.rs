//! Single-line text normalization and range replacement.
use vstd::prelude::*;

use super::utf::{
    byte_to_char, chars_of, char_index_of_byte, is_char_boundary, lemma_byte_to_char_bounds, push_char,
    CharTable,
};

verus! {

/// `s` holds no line break.
pub open spec fn is_single_line(s: Seq<char>) -> bool {
    forall|i: int| 0 <= i < s.len() ==> s[i] != '\r' && s[i] != '\n'
}

/// `s` with each `"\r\n"`, `'\r'` and `'\n'` replaced by one space.
pub open spec fn single_line(s: Seq<char>) -> Seq<char>
    decreases s.len(),
{
    if s.len() == 0 {
        Seq::empty()
    } else if s[0] == '\r' && s.len() > 1 && s[1] == '\n' {
        seq![' '] + single_line(s.skip(2))
    } else if s[0] == '\r' || s[0] == '\n' {
        seq![' '] + single_line(s.drop_first())
    } else {
        seq![s[0]] + single_line(s.drop_first())
    }
}

/// The normalized text holds no line break.
pub proof fn lemma_single_line_is_single_line(s: Seq<char>)
    ensures
        is_single_line(single_line(s)),
        single_line(s).len() <= s.len(),
    decreases s.len(),
{
    if s.len() > 0 {
        if s[0] == '\r' && s.len() > 1 && s[1] == '\n' {
            lemma_single_line_is_single_line(s.skip(2));
        } else {
            lemma_single_line_is_single_line(s.drop_first());
        }
        let r = single_line(s);
        assert forall|i: int| 0 <= i < r.len() implies r[i] != '\r' && r[i] != '\n' by {
            if i > 0 {
                if s[0] == '\r' && s.len() > 1 && s[1] == '\n' {
                    assert(r[i] == single_line(s.skip(2))[i - 1]);
                } else {
                    assert(r[i] == single_line(s.drop_first())[i - 1]);
                }
            }
        }
    }
}

/// Text without line breaks is left unchanged.
pub proof fn lemma_single_line_identity(s: Seq<char>)
    requires
        is_single_line(s),
    ensures
        single_line(s) == s,
    decreases s.len(),
{
    if s.len() > 0 {
        let t = s.drop_first();
        assert(is_single_line(t)) by {
            assert forall|i: int| 0 <= i < t.len() implies t[i] != '\r' && t[i] != '\n' by {
                assert(t[i] == s[i + 1]);
            }
        }
        lemma_single_line_identity(t);
        assert(s =~= seq![s[0]] + t);
    }
}

/// Normalizing is idempotent: normalized text normalizes to itself.
pub proof fn lemma_single_line_idempotent(s: Seq<char>)
    ensures
        single_line(single_line(s)) == single_line(s),
{
    lemma_single_line_is_single_line(s);
    lemma_single_line_identity(single_line(s));
}

/// Parts of single-line texts, and their concatenations, are single-line.
pub proof fn lemma_single_line_concat(a: Seq<char>, b: Seq<char>)
    requires
        is_single_line(a),
        is_single_line(b),
    ensures
        is_single_line(a + b),
{
    assert forall|i: int| 0 <= i < (a + b).len() implies (a + b)[i] != '\r' && (a + b)[i]
        != '\n' by {
        if i < a.len() {
            assert((a + b)[i] == a[i]);
        } else {
            assert((a + b)[i] == b[i - a.len()]);
        }
    }
}

/// A part of a single-line text is single-line.
pub proof fn lemma_single_line_subrange(a: Seq<char>, i: int, j: int)
    requires
        is_single_line(a),
        0 <= i <= j <= a.len(),
    ensures
        is_single_line(a.subrange(i, j)),
{
    assert forall|k: int| 0 <= k < j - i implies a.subrange(i, j)[k] != '\r' && a.subrange(
        i,
        j,
    )[k] != '\n' by {
        assert(a.subrange(i, j)[k] == a[i + k]);
    }
}

/// Appends `chars[from..to]` to `out`.
fn push_range(out: &mut String, chars: &Vec<char>, from: usize, to: usize)
    requires
        from <= to <= chars@.len(),
    ensures
        final(out)@ == old(out)@ + chars@.subrange(from as int, to as int),
{
    let mut i = from;
    while i < to
        invariant
            from <= i <= to,
            to <= chars@.len(),
            out@ == old(out)@ + chars@.subrange(from as int, i as int),
        decreases to - i,
    {
        push_char(out, chars[i]);
        assert(chars@.subrange(from as int, i + 1) =~= chars@.subrange(from as int, i as int).push(
            chars@[i as int],
        ));
        i += 1;
    }
}

/// Replaces the byte range `range` of `value` by `replacement`.
pub fn replace_text(value: &str, range: std::ops::Range<usize>, replacement: &str) -> (r: String)
    requires
        range.start <= range.end,
        is_char_boundary(value@, range.start as int),
        is_char_boundary(value@, range.end as int),
    ensures
        r@ == value@.take(byte_to_char(value@, range.start as int) as int) + replacement@
            + value@.skip(byte_to_char(value@, range.end as int) as int),
{
    let table = CharTable::new(value);
    let start = char_index_of_byte(&table, range.start);
    let end = char_index_of_byte(&table, range.end);
    proof {
        lemma_byte_to_char_bounds(value@, range.start as int);
        lemma_byte_to_char_bounds(value@, range.end as int);
    }
    let n = table.chars.len();
    let insert = chars_of(replacement);
    let mut next = String::new();
    push_range(&mut next, &table.chars, 0, start);
    push_range(&mut next, &insert, 0, insert.len());
    push_range(&mut next, &table.chars, end, n);
    proof {
        assert(value@.subrange(0, start as int) =~= value@.take(start as int));
        assert(insert@.subrange(0, insert@.len() as int) =~= replacement@);
        assert(value@.subrange(end as int, n as int) =~= value@.skip(end as int));
        assert(Seq::<char>::empty() + value@.take(start as int) =~= value@.take(start as int));
    }
    next
}

/// Replaces every line break of `value` by a space: `"\r\n"`, `'\r'` and `'\n'` each
/// become one `' '`.
pub fn normalize_single_line(value: &str) -> (r: String)
    ensures
        r@ == single_line(value@),
{
    let chars = chars_of(value);
    let ghost s = value@;
    let n = chars.len();
    let mut out = String::new();
    let mut i: usize = 0;
    proof {
        assert(s.skip(0) =~= s);
        assert(out@ + single_line(s) =~= single_line(s));
    }
    while i < n
        invariant
            chars@ == s,
            n == s.len(),
            i <= n,
            out@ + single_line(s.skip(i as int)) == single_line(s),
        decreases n - i,
    {
        let ch = chars[i];
        let ghost rest = s.skip(i as int);
        proof {
            assert(rest[0] == ch);
        }
        if ch == '\r' {
            if i + 1 < n && chars[i + 1] == '\n' {
                proof {
                    assert(rest[1] == chars@[i + 1]);
                    assert(rest.skip(2) =~= s.skip(i + 2));
                    assert(out@.push(' ') + single_line(s.skip(i + 2)) =~= out@ + (seq![' ']
                        + single_line(rest.skip(2))));
                }
                push_char(&mut out, ' ');
                i += 2;
            } else {
                proof {
                    assert(rest.drop_first() =~= s.skip(i + 1));
                    assert(out@.push(' ') + single_line(s.skip(i + 1)) =~= out@ + (seq![' ']
                        + single_line(rest.drop_first())));
                }
                push_char(&mut out, ' ');
                i += 1;
            }
        } else if ch == '\n' {
            proof {
                assert(rest.drop_first() =~= s.skip(i + 1));
                assert(out@.push(' ') + single_line(s.skip(i + 1)) =~= out@ + (seq![' ']
                    + single_line(rest.drop_first())));
            }
            push_char(&mut out, ' ');
            i += 1;
        } else {
            proof {
                assert(rest.drop_first() =~= s.skip(i + 1));
                assert(out@.push(ch) + single_line(s.skip(i + 1)) =~= out@ + (seq![ch]
                    + single_line(rest.drop_first())));
            }
            push_char(&mut out, ch);
            i += 1;
        }
    }
    proof {
        assert(s.skip(n as int) =~= Seq::<char>::empty());
        assert(out@ + Seq::<char>::empty() =~= out@);
    }
    out
}

} // verus!
