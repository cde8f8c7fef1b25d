//! UTF-8 / UTF-16 widths, offsets and the conversions between them.
//!
//! Texts are modelled by their character sequence (`text@`). Byte offsets are
//! UTF-8 offsets into the encoding of that sequence, and UTF-16 offsets count
//! UTF-16 code units, as platform input methods do.
use vstd::prelude::*;
use vstd::utf8::*;

verus! {

broadcast use vstd::string::group_string_axioms, vstd::slice::group_slice_axioms;

/// Number of UTF-8 bytes that encode `c`.
pub open spec fn utf8_width(c: char) -> nat {
    let v = c as u32;
    if v <= 0x7F {
        1
    } else if v <= 0x7FF {
        2
    } else if v <= 0xFFFF {
        3
    } else {
        4
    }
}

/// Number of UTF-16 code units that encode `c`.
pub open spec fn utf16_width(c: char) -> nat {
    if (c as u32) <= 0xFFFF {
        1
    } else {
        2
    }
}

/// Number of UTF-8 bytes that encode the characters of `s`.
pub open spec fn utf8_len(s: Seq<char>) -> nat
    decreases s.len(),
{
    if s.len() == 0 {
        0
    } else {
        utf8_width(s[0]) + utf8_len(s.drop_first())
    }
}

/// Number of UTF-16 code units that encode the characters of `s`.
pub open spec fn utf16_len(s: Seq<char>) -> nat
    decreases s.len(),
{
    if s.len() == 0 {
        0
    } else {
        utf16_width(s[0]) + utf16_len(s.drop_first())
    }
}

/// UTF-8 offset at which character `k` of `s` starts (or the length, for `k == len`).
pub open spec fn char_to_byte(s: Seq<char>, k: int) -> nat {
    utf8_len(s.take(k))
}

/// Number of characters of `s` that start before the byte offset `b`.
pub open spec fn byte_to_char(s: Seq<char>, b: int) -> nat
    decreases s.len(),
{
    if s.len() == 0 || b <= 0 {
        0
    } else {
        1 + byte_to_char(s.drop_first(), b - utf8_width(s[0]))
    }
}

/// Number of characters of `s` whose UTF-16 code units all lie before the UTF-16 offset `u`.
pub open spec fn utf16_to_char(s: Seq<char>, u: int) -> nat
    decreases s.len(),
{
    if s.len() == 0 || u < utf16_width(s[0]) {
        0
    } else {
        1 + utf16_to_char(s.drop_first(), u - utf16_width(s[0]))
    }
}

/// `b` is a UTF-8 character boundary of `s`: the start of a character or the end of the text.
pub open spec fn is_char_boundary(s: Seq<char>, b: int) -> bool {
    0 <= b && char_to_byte(s, byte_to_char(s, b) as int) == b
}

/// The UTF-8 offset that a UTF-16 offset designates: the start of the first character that
/// the UTF-16 offset does not cover entirely, or the end of the text.
pub open spec fn utf16_offset_to_utf8(s: Seq<char>, u: int) -> nat {
    char_to_byte(s, utf16_to_char(s, u) as int)
}

/// The UTF-16 offset that a UTF-8 offset designates: the UTF-16 length of the characters
/// that start before it.
pub open spec fn utf8_offset_to_utf16(s: Seq<char>, b: int) -> nat {
    utf16_len(s.take(byte_to_char(s, b) as int))
}

pub proof fn lemma_utf8_width_bounds(c: char)
    ensures
        1 <= utf8_width(c) <= 4,
        1 <= utf16_width(c) <= 2,
        utf16_width(c) <= utf8_width(c),
{
}

pub proof fn lemma_utf8_len_single(c: char)
    ensures
        utf8_len(seq![c]) == utf8_width(c),
        utf16_len(seq![c]) == utf16_width(c),
{
    assert(seq![c].drop_first() =~= Seq::<char>::empty());
    assert(utf8_len(Seq::<char>::empty()) == 0);
    assert(utf16_len(Seq::<char>::empty()) == 0);
}

pub proof fn lemma_utf8_len_append(a: Seq<char>, b: Seq<char>)
    ensures
        utf8_len(a + b) == utf8_len(a) + utf8_len(b),
        utf16_len(a + b) == utf16_len(a) + utf16_len(b),
    decreases a.len(),
{
    if a.len() == 0 {
        assert(a + b =~= b);
    } else {
        assert((a + b).drop_first() =~= a.drop_first() + b);
        lemma_utf8_len_append(a.drop_first(), b);
    }
}

pub proof fn lemma_utf8_len_push(a: Seq<char>, c: char)
    ensures
        utf8_len(a.push(c)) == utf8_len(a) + utf8_width(c),
        utf16_len(a.push(c)) == utf16_len(a) + utf16_width(c),
{
    assert(a.push(c) =~= a + seq![c]);
    lemma_utf8_len_append(a, seq![c]);
    lemma_utf8_len_single(c);
}

pub proof fn lemma_take_succ(s: Seq<char>, k: int)
    requires
        0 <= k < s.len(),
    ensures
        char_to_byte(s, k + 1) == char_to_byte(s, k) + utf8_width(s[k]),
        utf16_len(s.take(k + 1)) == utf16_len(s.take(k)) + utf16_width(s[k]),
{
    assert(s.take(k + 1) =~= s.take(k).push(s[k]));
    lemma_utf8_len_push(s.take(k), s[k]);
}

pub proof fn lemma_utf16_le_utf8(s: Seq<char>)
    ensures
        utf16_len(s) <= utf8_len(s),
        s.len() <= utf8_len(s),
    decreases s.len(),
{
    if s.len() > 0 {
        lemma_utf16_le_utf8(s.drop_first());
    }
}

/// Prefix byte lengths grow with the prefix.
pub proof fn lemma_char_to_byte_mono(s: Seq<char>, i: int, j: int)
    requires
        0 <= i <= j <= s.len(),
    ensures
        char_to_byte(s, i) <= char_to_byte(s, j),
        char_to_byte(s, j) <= utf8_len(s),
        i < j ==> char_to_byte(s, i) < char_to_byte(s, j),
        utf16_len(s.take(i)) <= utf16_len(s.take(j)),
{
    assert(s.take(j) =~= s.take(i) + s.subrange(i, j));
    lemma_utf8_len_append(s.take(i), s.subrange(i, j));
    assert(s =~= s.take(j) + s.skip(j));
    lemma_utf8_len_append(s.take(j), s.skip(j));
    if i < j {
        assert(s.subrange(i, j)[0] == s[i]);
    }
}

/// The byte offset of character `k` designates character `k` back.
pub proof fn lemma_byte_to_char_of_char_to_byte(s: Seq<char>, k: int)
    requires
        0 <= k <= s.len(),
    ensures
        byte_to_char(s, char_to_byte(s, k) as int) == k,
        is_char_boundary(s, char_to_byte(s, k) as int),
    decreases s.len(),
{
    if k == 0 {
        assert(s.take(0) =~= Seq::<char>::empty());
    } else {
        let t = s.drop_first();
        assert(s.take(k) =~= seq![s[0]] + t.take(k - 1));
        lemma_utf8_len_append(seq![s[0]], t.take(k - 1));
        lemma_utf8_len_single(s[0]);
        lemma_byte_to_char_of_char_to_byte(t, k - 1);
    }
}

/// Characters that start before `b` lie within `b` bytes, and the next one starts at or after `b`.
pub proof fn lemma_byte_to_char_bounds(s: Seq<char>, b: int)
    ensures
        byte_to_char(s, b) <= s.len(),
        b > 0 && byte_to_char(s, b) > 0 ==> char_to_byte(s, byte_to_char(s, b) - 1) < b,
        byte_to_char(s, b) < s.len() ==> b <= char_to_byte(s, byte_to_char(s, b) as int),
        b >= utf8_len(s) ==> byte_to_char(s, b) == s.len(),
    decreases s.len(),
{
    if s.len() == 0 || b <= 0 {
        assert(s.take(0) =~= Seq::<char>::empty());
    } else {
        let t = s.drop_first();
        let w = utf8_width(s[0]);
        lemma_byte_to_char_bounds(t, b - w);
        let k = byte_to_char(t, b - w);
        assert(s.take(k + 1int) =~= seq![s[0]] + t.take(k as int));
        lemma_utf8_len_append(seq![s[0]], t.take(k as int));
        lemma_utf8_len_single(s[0]);
        if k > 0 {
            assert(s.take(k as int) =~= seq![s[0]] + t.take(k - 1));
            lemma_utf8_len_append(seq![s[0]], t.take(k - 1));
        } else {
            assert(s.take(0) =~= Seq::<char>::empty());
        }
    }
}

/// Counting the characters that start before an offset is monotone in the offset.
pub proof fn lemma_byte_to_char_mono(s: Seq<char>, a: int, b: int)
    requires
        a <= b,
    ensures
        byte_to_char(s, a) <= byte_to_char(s, b),
    decreases s.len(),
{
    if s.len() > 0 && a > 0 {
        lemma_byte_to_char_mono(s.drop_first(), a - utf8_width(s[0]), b - utf8_width(s[0]));
    }
}

/// A character boundary lies within the text.
pub proof fn lemma_boundary_le_len(s: Seq<char>, b: int)
    requires
        is_char_boundary(s, b),
    ensures
        b <= utf8_len(s),
{
    lemma_byte_to_char_bounds(s, b);
    lemma_char_to_byte_mono(s, byte_to_char(s, b) as int, s.len() as int);
    assert(s.take(s.len() as int) =~= s);
}

/// The byte length of a text described by a table fits in a `usize`.
pub proof fn lemma_table_len_fits(t: &CharTable, s: Seq<char>)
    requires
        t.describes(s),
    ensures
        utf8_len(s) <= usize::MAX,
{
    assert(s.take(s.len() as int) =~= s);
    assert(t.starts@[s.len() as int] == char_to_byte(s, s.len() as int));
}

/// Character offsets inside the middle part of a concatenation shift by the first part.
pub proof fn lemma_concat_char_to_byte(a: Seq<char>, t: Seq<char>, b: Seq<char>, k: int)
    requires
        0 <= k <= t.len(),
    ensures
        char_to_byte(a + t + b, a.len() + k) == utf8_len(a) + char_to_byte(t, k),
{
    assert((a + t + b).take(a.len() + k) =~= a + t.take(k));
    lemma_utf8_len_append(a, t.take(k));
}

/// A character boundary of the middle part of a concatenation, shifted by the first part's
/// byte length, is a character boundary of the whole.
pub proof fn lemma_concat_boundary(a: Seq<char>, t: Seq<char>, b: Seq<char>, x: int)
    requires
        is_char_boundary(t, x),
    ensures
        is_char_boundary(a + t + b, utf8_len(a) + x),
        byte_to_char(a + t + b, utf8_len(a) + x) == a.len() + byte_to_char(t, x),
{
    let k = byte_to_char(t, x) as int;
    lemma_byte_to_char_bounds(t, x);
    lemma_concat_char_to_byte(a, t, b, k);
    lemma_byte_to_char_of_char_to_byte(a + t + b, a.len() + k);
}

/// The byte offset of a character boundary is the byte length of the characters before it.
pub proof fn lemma_boundary_prefix(s: Seq<char>, x: int)
    requires
        is_char_boundary(s, x),
    ensures
        utf8_len(s.take(byte_to_char(s, x) as int)) == x,
        byte_to_char(s, x) <= s.len(),
{
    lemma_byte_to_char_bounds(s, x);
}

/// The UTF-8 encoding of `s` has `utf8_len(s)` bytes.
pub proof fn lemma_encode_utf8_len(s: Seq<char>)
    ensures
        encode_utf8(s).len() == utf8_len(s),
    decreases s.len(),
{
    if s.len() > 0 {
        let c = s[0];
        char_is_scalar(c);
        lemma_encode_utf8_len(s.drop_first());
    }
}

/// The characters counted for a UTF-16 offset are the longest prefix that the offset
/// covers entirely: at most the offset's worth of code units, and one more character
/// would exceed it.
pub proof fn lemma_utf16_to_char_greatest(s: Seq<char>, u: int, j: int)
    requires
        0 <= u,
        utf16_to_char(s, u) < j <= s.len(),
    ensures
        utf16_to_char(s, u) <= s.len(),
        utf16_len(s.take(utf16_to_char(s, u) as int)) <= u,
        utf16_len(s.take(j)) > u,
    decreases s.len(),
{
    let k = utf16_to_char(s, u) as int;
    let t = s.drop_first();
    lemma_utf8_width_bounds(s[0]);
    if u < utf16_width(s[0]) {
        assert(s.take(0) =~= Seq::<char>::empty());
        assert(s.take(j) =~= seq![s[0]] + t.take(j - 1));
        lemma_utf8_len_append(seq![s[0]], t.take(j - 1));
        lemma_utf8_len_single(s[0]);
    } else {
        let w = utf16_width(s[0]) as int;
        lemma_utf16_to_char_greatest(t, u - w, j - 1);
        assert(s.take(k) =~= seq![s[0]] + t.take(k - 1));
        lemma_utf8_len_append(seq![s[0]], t.take(k - 1));
        assert(s.take(j) =~= seq![s[0]] + t.take(j - 1));
        lemma_utf8_len_append(seq![s[0]], t.take(j - 1));
        lemma_utf8_len_single(s[0]);
    }
}

/// The characters counted for a UTF-16 offset lie within the text and within the offset.
pub proof fn lemma_utf16_to_char_bounds(s: Seq<char>, u: int)
    requires
        0 <= u,
    ensures
        utf16_to_char(s, u) <= s.len(),
        utf16_len(s.take(utf16_to_char(s, u) as int)) <= u,
    decreases s.len(),
{
    if s.len() == 0 || u < utf16_width(s[0]) {
        assert(s.take(0) =~= Seq::<char>::empty());
    } else {
        let t = s.drop_first();
        let k = utf16_to_char(s, u) as int;
        lemma_utf16_to_char_bounds(t, u - utf16_width(s[0]));
        assert(s.take(k) =~= seq![s[0]] + t.take(k - 1));
        lemma_utf8_len_append(seq![s[0]], t.take(k - 1));
        lemma_utf8_len_single(s[0]);
    }
}

/// The UTF-16 length of the first `k` characters counts exactly those `k` characters.
pub proof fn lemma_utf16_to_char_of_prefix(s: Seq<char>, k: int)
    requires
        0 <= k <= s.len(),
    ensures
        utf16_to_char(s, utf16_len(s.take(k)) as int) == k,
    decreases s.len(),
{
    if k == 0 {
        assert(s.take(0) =~= Seq::<char>::empty());
        if s.len() > 0 {
            lemma_utf8_width_bounds(s[0]);
        }
    } else {
        let t = s.drop_first();
        assert(s.take(k) =~= seq![s[0]] + t.take(k - 1));
        lemma_utf8_len_append(seq![s[0]], t.take(k - 1));
        lemma_utf8_len_single(s[0]);
        lemma_utf16_to_char_of_prefix(t, k - 1);
    }
}

/// A UTF-16 offset designates the greatest character boundary whose UTF-16 offset does not
/// exceed it (so an offset inside a surrogate pair rounds down), and converting a character
/// boundary to UTF-16 and back gives the boundary again.
pub proof fn lemma_utf16_round_trip(s: Seq<char>, u: int, c: int)
    requires
        0 <= u,
    ensures
        is_char_boundary(s, utf16_offset_to_utf8(s, u) as int),
        utf16_offset_to_utf8(s, u) <= utf8_len(s),
        utf8_offset_to_utf16(s, utf16_offset_to_utf8(s, u) as int) <= u,
        is_char_boundary(s, c) && utf8_offset_to_utf16(s, c) <= u ==> c <= utf16_offset_to_utf8(
            s,
            u,
        ),
        is_char_boundary(s, c) ==> utf16_offset_to_utf8(s, utf8_offset_to_utf16(s, c) as int)
            == c,
{
    let k = utf16_to_char(s, u) as int;
    lemma_utf16_to_char_bounds(s, u);
    lemma_byte_to_char_of_char_to_byte(s, k);
    lemma_char_to_byte_mono(s, k, s.len() as int);
    assert(s.take(s.len() as int) =~= s);
    if is_char_boundary(s, c) {
        let j = byte_to_char(s, c) as int;
        lemma_byte_to_char_bounds(s, c);
        lemma_utf16_to_char_of_prefix(s, j);
        if utf8_offset_to_utf16(s, c) <= u && c > utf16_offset_to_utf8(s, u) {
            if j <= k {
                lemma_char_to_byte_mono(s, j, k);
            } else {
                lemma_utf16_to_char_greatest(s, u, j);
            }
        }
    }
}

/// Byte length of `text`.
pub fn text_len(text: &str) -> (n: usize)
    ensures
        n == utf8_len(text@),
{
    let bytes = text.as_bytes();
    proof {
        lemma_encode_utf8_len(text@);
    }
    bytes.len()
}

/// Number of UTF-8 bytes that encode `c`.
pub fn char_len_utf8(c: char) -> (n: usize)
    ensures
        n == utf8_width(c),
{
    let v = c as u32;
    if v <= 0x7F {
        1
    } else if v <= 0x7FF {
        2
    } else if v <= 0xFFFF {
        3
    } else {
        4
    }
}

/// Number of UTF-16 code units that encode `c`.
pub fn char_len_utf16(c: char) -> (n: usize)
    ensures
        n == utf16_width(c),
{
    if (c as u32) <= 0xFFFF {
        1
    } else {
        2
    }
}

/// Collects the characters of `text` in order.
pub fn chars_of(text: &str) -> (r: Vec<char>)
    ensures
        r@ == text@,
{
    let mut out: Vec<char> = Vec::new();
    for c in it: text.chars()
        invariant
            out@ == it.seq().take(it.index()),
    {
        out.push(c);
    }
    out
}

/// Appends one character to a `String`.
#[verifier::external_body]
pub(crate) fn push_char(s: &mut String, c: char)
    ensures
        final(s)@ == old(s)@.push(c),
{
    s.push(c);
}

/// Builds a `String` from characters.
pub fn string_from_chars(chars: &[char]) -> (r: String)
    ensures
        r@ == chars@,
{
    let mut out = String::new();
    let n = chars.len();
    let mut i: usize = 0;
    while i < n
        invariant
            n == chars@.len(),
            i <= n,
            out@ == chars@.take(i as int),
        decreases n - i,
    {
        push_char(&mut out, chars[i]);
        assert(chars@.take(i + 1) =~= chars@.take(i as int).push(chars@[i as int]));
        i += 1;
    }
    assert(chars@.take(n as int) =~= chars@);
    out
}

/// The characters of a text together with the UTF-8 offset of each character start.
pub struct CharTable {
    /// The characters, in order.
    pub chars: Vec<char>,
    /// `starts[k]` is the UTF-8 offset of character `k`; the last entry is the byte length.
    pub starts: Vec<usize>,
}

impl CharTable {
    /// The table describes the character sequence `s`.
    pub open spec fn describes(&self, s: Seq<char>) -> bool {
        &&& self.chars@ == s
        &&& self.starts@.len() == s.len() + 1
        &&& forall|k: int| 0 <= k <= s.len() ==> #[trigger] self.starts@[k] == char_to_byte(s, k)
    }

    /// Builds the table of `text`.
    pub fn new(text: &str) -> (r: CharTable)
        ensures
            r.describes(text@),
    {
        let total = text_len(text);
        let chars = chars_of(text);
        let n = chars.len();
        let mut starts: Vec<usize> = Vec::new();
        let mut pos: usize = 0;
        let mut i: usize = 0;
        proof {
            assert(text@.take(0) =~= Seq::<char>::empty());
        }
        while i < n
            invariant
                chars@ == text@,
                n == chars@.len(),
                total == utf8_len(text@),
                i <= n,
                pos == char_to_byte(text@, i as int),
                starts@.len() == i,
                forall|k: int| 0 <= k < i ==> #[trigger] starts@[k] == char_to_byte(text@, k),
            decreases n - i,
        {
            starts.push(pos);
            proof {
                lemma_take_succ(text@, i as int);
                lemma_char_to_byte_mono(text@, i + 1, n as int);
                assert(text@.take(n as int) =~= text@);
            }
            pos = pos + char_len_utf8(chars[i]);
            i += 1;
        }
        starts.push(pos);
        CharTable { chars, starts }
    }
}

/// The characters `chars[from..to]` of a table, as a `String`.
pub fn table_substring(table: &CharTable, from: usize, to: usize) -> (r: String)
    requires
        from <= to <= table.chars@.len(),
    ensures
        r@ == table.chars@.subrange(from as int, to as int),
{
    let mut out = String::new();
    let mut i = from;
    while i < to
        invariant
            from <= i <= to,
            to <= table.chars@.len(),
            out@ == table.chars@.subrange(from as int, i as int),
        decreases to - i,
    {
        push_char(&mut out, table.chars[i]);
        assert(table.chars@.subrange(from as int, i + 1) =~= table.chars@.subrange(
            from as int,
            i as int,
        ).push(table.chars@[i as int]));
        i += 1;
    }
    out
}

/// Index of the first character that starts at or after byte `b`: the number of
/// characters that start before `b`.
pub fn char_index_of_byte(table: &CharTable, b: usize) -> (k: usize)
    requires
        table.describes(table.chars@),
    ensures
        k == byte_to_char(table.chars@, b as int),
{
    let ghost s = table.chars@;
    let n = table.chars.len();
    let mut i: usize = 0;
    proof {
        assert(s.skip(0) =~= s);
    }
    while i < n
        invariant
            s == table.chars@,
            table.describes(s),
            n == s.len(),
            i <= n,
            byte_to_char(s, b as int) == i + byte_to_char(s.skip(i as int), b - char_to_byte(s, i as int)),
        decreases n - i,
    {
        if table.starts[i] >= b {
            return i;
        }
        proof {
            assert(s.skip(i as int).drop_first() =~= s.skip(i + 1));
            lemma_take_succ(s, i as int);
        }
        i += 1;
    }
    i
}

/// Converts a UTF-16 offset to the UTF-8 offset that it designates.
pub fn utf16_to_utf8(text: &str, offset: usize) -> (r: usize)
    ensures
        r == utf16_offset_to_utf8(text@, offset as int),
{
    let table = CharTable::new(text);
    let ghost s = text@;
    let n = table.chars.len();
    let mut utf16: usize = 0;
    let mut i: usize = 0;
    proof {
        assert(s.skip(0) =~= s);
        assert(s.take(0) =~= Seq::<char>::empty());
    }
    while i < n
        invariant
            s == text@,
            table.describes(s),
            n == s.len(),
            i <= n,
            utf16 == utf16_len(s.take(i as int)),
            utf16 <= offset,
            utf16 <= char_to_byte(s, i as int),
            utf16_to_char(s, offset as int) == i + utf16_to_char(s.skip(i as int), offset - utf16),
        decreases n - i,
    {
        let byte = table.starts[i];
        proof {
            assert(s.skip(i as int)[0] == s[i as int]);
            lemma_utf8_width_bounds(s[i as int]);
            lemma_take_succ(s, i as int);
            assert(table.starts@[i + 1] == char_to_byte(s, i + 1));
        }
        if utf16 >= offset {
            assert(utf16_to_char(s.skip(i as int), offset - utf16) == 0);
            return byte;
        }
        let next = utf16 + char_len_utf16(table.chars[i]);
        if offset < next {
            assert(utf16_to_char(s.skip(i as int), offset - utf16) == 0);
            return byte;
        }
        proof {
            assert(s.skip(i as int).drop_first() =~= s.skip(i + 1));
        }
        utf16 = next;
        i += 1;
    }
    proof {
        assert(s.skip(n as int) =~= Seq::<char>::empty());
    }
    table.starts[n]
}

/// Converts a UTF-8 offset to the UTF-16 offset that it designates.
pub fn utf8_to_utf16(text: &str, offset: usize) -> (r: usize)
    ensures
        r == utf8_offset_to_utf16(text@, offset as int),
{
    let table = CharTable::new(text);
    let ghost s = text@;
    let n = table.chars.len();
    let mut utf16: usize = 0;
    let mut i: usize = 0;
    proof {
        assert(s.skip(0) =~= s);
        assert(s.take(0) =~= Seq::<char>::empty());
    }
    while i < n
        invariant
            s == text@,
            table.describes(s),
            n == s.len(),
            i <= n,
            utf16 == utf16_len(s.take(i as int)),
            utf16 <= char_to_byte(s, i as int),
            byte_to_char(s, offset as int) == i + byte_to_char(s.skip(i as int), offset - char_to_byte(s, i as int)),
        decreases n - i,
    {
        proof {
            assert(s.skip(i as int)[0] == s[i as int]);
            lemma_take_succ(s, i as int);
            lemma_utf8_width_bounds(s[i as int]);
            assert(table.starts@[i + 1] == char_to_byte(s, i + 1));
        }
        if table.starts[i] >= offset {
            assert(byte_to_char(s.skip(i as int), offset - char_to_byte(s, i as int)) == 0);
            return utf16;
        }
        proof {
            assert(s.skip(i as int).drop_first() =~= s.skip(i + 1));
        }
        utf16 = utf16 + char_len_utf16(table.chars[i]);
        i += 1;
    }
    proof {
        assert(s.skip(n as int) =~= Seq::<char>::empty());
        assert(s.take(n as int) =~= s);
    }
    utf16
}

/// Whether two texts hold the same characters.
pub fn same_text(a: &str, b: &str) -> (r: bool)
    ensures
        r == (a@ == b@),
{
    let x = chars_of(a);
    let y = chars_of(b);
    if x.len() != y.len() {
        return false;
    }
    let mut i: usize = 0;
    while i < x.len()
        invariant
            x@ == a@,
            y@ == b@,
            x@.len() == y@.len(),
            i <= x@.len(),
            forall|j: int| 0 <= j < i ==> x@[j] == y@[j],
        decreases x@.len() - i,
    {
        if x[i] != y[i] {
            return false;
        }
        i += 1;
    }
    assert(x@ =~= y@);
    true
}

} // verus!
