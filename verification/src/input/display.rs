//! Mapping between the real text of an input and the text it shows (masked for passwords).
use std::ops::Range;
use vstd::prelude::*;

use crate::text::boundary::{dist, is_nearest_index, nearest_paired_boundary, strictly_increasing};
use crate::text::segment::{grapheme_starts, grapheme_starts_of, piece_starts_wf};
use crate::text::utf::{push_char, text_len, utf8_len};

verus! {

/// The character that stands for each grapheme cluster of a hidden password.
pub const PASSWORD_MASK: char = '\u{2022}';

/// The grapheme boundaries of `s`: every cluster start, then the text's length.
pub open spec fn grapheme_boundary_list(s: Seq<char>) -> Seq<usize> {
    grapheme_starts_of(s).push(utf8_len(s) as usize)
}

/// The text an input shows for its value, with the boundaries that pair real and shown offsets.
pub struct DisplayText {
    /// The shown text.
    pub text: String,
    /// Whether the shown text masks the value.
    pub masked: bool,
    /// Grapheme boundaries of the value.
    pub real_boundaries: Vec<usize>,
    /// The shown offset of each grapheme boundary of the value, in the same order.
    pub display_boundaries: Vec<usize>,
}

impl DisplayText {
    /// The shown text of `value`: the value itself, or one mask character per grapheme
    /// cluster when `hidden`.
    pub open spec fn shows(&self, value: Seq<char>, hidden: bool) -> bool {
        let n = grapheme_starts_of(value).len();
        &&& self.masked == hidden
        &&& self.real_boundaries@ == grapheme_boundary_list(value)
        &&& self.display_boundaries@.len() == self.real_boundaries@.len()
        &&& strictly_increasing(self.real_boundaries@)
        &&& strictly_increasing(self.display_boundaries@)
        &&& if hidden {
            &&& self.text@ == Seq::new(n, |i: int| PASSWORD_MASK)
            &&& forall|i: int| 0 <= i <= n ==> #[trigger] self.display_boundaries@[i] == 3 * i
        } else {
            &&& self.text@ == value
            &&& self.display_boundaries@ == self.real_boundaries@
        }
    }

    /// Builds the shown text of `value`.
    pub fn new(value: &str, password_hidden: bool) -> (r: DisplayText)
        requires
            password_hidden ==> 3 * utf8_len(value@) <= usize::MAX,
        ensures
            r.shows(value@, password_hidden),
            r.wf(),
    {
        let starts = grapheme_starts(value);
        let len = text_len(value);
        let ghost g = starts@;
        let mut real_bounds: Vec<usize> = Vec::new();
        let mut i: usize = 0;
        while i < starts.len()
            invariant
                g == starts@,
                g == grapheme_starts_of(value@),
                i <= g.len(),
                real_bounds@ == g.take(i as int),
            decreases g.len() - i,
        {
            real_bounds.push(starts[i]);
            assert(g.take(i + 1) =~= g.take(i as int).push(g[i as int]));
            i += 1;
        }
        assert(g.take(g.len() as int) =~= g);
        real_bounds.push(len);
        proof {
            assert forall|a: int, b: int|
                #![trigger real_bounds@[a], real_bounds@[b]]
                0 <= a < b < real_bounds@.len() implies real_bounds@[a] < real_bounds@[b] by {
                if b == g.len() {
                    assert(g[a] < utf8_len(value@));
                } else {
                    assert(g[a] < g[b]);
                }
            }
            lemma_starts_count_le_len(value@, g);
        }
        let count = starts.len();
        if !password_hidden {
            let mut display: Vec<usize> = Vec::new();
            let mut k: usize = 0;
            while k < real_bounds.len()
                invariant
                    k <= real_bounds@.len(),
                    display@ == real_bounds@.take(k as int),
                decreases real_bounds@.len() - k,
            {
                display.push(real_bounds[k]);
                assert(real_bounds@.take(k + 1) =~= real_bounds@.take(k as int).push(real_bounds@[k as int]));
                k += 1;
            }
            assert(real_bounds@.take(real_bounds@.len() as int) =~= real_bounds@);
            return DisplayText {
                text: value.to_owned(),
                masked: false,
                real_boundaries: real_bounds,
                display_boundaries: display,
            };
        }
        let mut text = String::new();
        let mut display: Vec<usize> = Vec::new();
        let mut k: usize = 0;
        while k < count
            invariant
                count == g.len(),
                count <= utf8_len(value@),
                3 * utf8_len(value@) <= usize::MAX,
                k <= count,
                text@ == Seq::new(k as nat, |i: int| PASSWORD_MASK),
                display@.len() == k,
                forall|i: int| 0 <= i < k ==> #[trigger] display@[i] == 3 * i,
            decreases count - k,
        {
            push_char(&mut text, PASSWORD_MASK);
            display.push(3 * k);
            assert(text@ =~= Seq::new((k + 1) as nat, |i: int| PASSWORD_MASK));
            k += 1;
        }
        display.push(3 * count);
        proof {
            assert forall|a: int, b: int|
                #![trigger display@[a], display@[b]]
                0 <= a < b < display@.len() implies display@[a] < display@[b] by {
            }
        }
        DisplayText { text, masked: true, real_boundaries: real_bounds, display_boundaries: display }
    }

    /// The boundary lists pair up: same non-zero length, both strictly increasing.
    pub open spec fn wf(&self) -> bool {
        &&& self.display_boundaries@.len() == self.real_boundaries@.len()
        &&& self.real_boundaries@.len() > 0
        &&& strictly_increasing(self.real_boundaries@)
        &&& strictly_increasing(self.display_boundaries@)
    }

    /// The shown offset of a real offset: clamped to the text when unmasked, otherwise the
    /// shown boundary paired with the real boundary nearest to it.
    pub fn display_offset(&self, real_offset: usize) -> (r: usize)
        requires
            self.wf(),
        ensures
            !self.masked ==> r == (if real_offset <= utf8_len(self.text@) {
                real_offset as int
            } else {
                utf8_len(self.text@) as int
            }),
            self.masked ==> exists|k: int|
                #[trigger] is_nearest_index(self.real_boundaries@, real_offset as int, k) && r
                    == self.display_boundaries@[k],
    {
        if !self.masked {
            let len = text_len(self.text.as_str());
            return if real_offset < len {
                real_offset
            } else {
                len
            };
        }
        nearest_paired_boundary(
            real_offset,
            self.real_boundaries.as_slice(),
            self.display_boundaries.as_slice(),
        )
    }

    /// The real offset of a shown offset: clamped to the text when unmasked, otherwise the
    /// real boundary paired with the shown boundary nearest to it.
    pub fn real_offset(&self, display_offset: usize) -> (r: usize)
        requires
            self.wf(),
        ensures
            !self.masked ==> r == (if display_offset <= utf8_len(self.text@) {
                display_offset as int
            } else {
                utf8_len(self.text@) as int
            }),
            self.masked ==> exists|k: int|
                #[trigger] is_nearest_index(self.display_boundaries@, display_offset as int, k) && r
                    == self.real_boundaries@[k],
    {
        if !self.masked {
            let len = text_len(self.text.as_str());
            return if display_offset < len {
                display_offset
            } else {
                len
            };
        }
        nearest_paired_boundary(
            display_offset,
            self.display_boundaries.as_slice(),
            self.real_boundaries.as_slice(),
        )
    }

    /// The shown range of a real range.
    pub fn display_range(&self, range: Range<usize>) -> (r: Range<usize>)
        requires
            self.wf(),
        ensures
            !self.masked ==> r.start == (if range.start <= utf8_len(self.text@) {
                range.start as int
            } else {
                utf8_len(self.text@) as int
            }) && r.end == (if range.end <= utf8_len(self.text@) {
                range.end as int
            } else {
                utf8_len(self.text@) as int
            }),
            self.masked ==> (exists|k: int|
                #[trigger] is_nearest_index(self.real_boundaries@, range.start as int, k) && r.start
                    == self.display_boundaries@[k]) && (exists|k: int|
                #[trigger] is_nearest_index(self.real_boundaries@, range.end as int, k) && r.end
                    == self.display_boundaries@[k]),
    {
        self.display_offset(range.start)..self.display_offset(range.end)
    }
}

/// Shown and real offsets of the same boundary map to each other: mapping a grapheme
/// boundary of the value to its shown offset and back gives the boundary again.
pub proof fn lemma_display_round_trip(d: DisplayText, i: int, shown: int, back: int)
    requires
        d.wf(),
        d.masked,
        0 <= i < d.real_boundaries@.len(),
        exists|k: int|
            #[trigger] is_nearest_index(d.real_boundaries@, d.real_boundaries@[i] as int, k)
                && shown == d.display_boundaries@[k],
        exists|k: int|
            #[trigger] is_nearest_index(d.display_boundaries@, shown, k) && back
                == d.real_boundaries@[k],
    ensures
        shown == d.display_boundaries@[i],
        back == d.real_boundaries@[i],
{
    let r = d.real_boundaries@;
    let v = d.display_boundaries@;
    let k1 = choose|k: int|
        #[trigger] is_nearest_index(r, r[i] as int, k) && shown == v[k];
    lemma_nearest_index_exact(r, i, k1);
    let k2 = choose|k: int| #[trigger] is_nearest_index(v, shown, k) && back == r[k];
    lemma_nearest_index_exact(v, i, k2);
}

/// In a strictly increasing sequence, the element nearest to `v[i]` is `v[i]` itself.
proof fn lemma_nearest_index_exact(v: Seq<usize>, i: int, k: int)
    requires
        strictly_increasing(v),
        0 <= i < v.len(),
        is_nearest_index(v, v[i] as int, k),
    ensures
        k == i,
{
    assert(dist(v[i] as int, v[i] as int) == 0);
    if k < i {
        assert(v[k] < v[i]);
    } else if k > i {
        assert(v[i] < v[k]);
    }
}

/// A text has at most as many grapheme clusters as bytes.
proof fn lemma_starts_count_le_len(s: Seq<char>, g: Seq<usize>)
    requires
        piece_starts_wf(s, g),
    ensures
        g.len() <= utf8_len(s),
{
    if g.len() > 0 {
        assert forall|i: int| 0 <= i < g.len() implies #[trigger] g[i] >= i by {
            lemma_increasing_ge_index(g, i);
        }
        assert(g[g.len() - 1] < utf8_len(s));
    }
}

proof fn lemma_increasing_ge_index(g: Seq<usize>, i: int)
    requires
        0 <= i < g.len(),
        forall|a: int, b: int| 0 <= a < b < g.len() ==> g[a] < g[b],
    ensures
        g[i] >= i,
    decreases i,
{
    if i > 0 {
        lemma_increasing_ge_index(g, i - 1);
        assert(g[i - 1] < g[i]);
    }
}

/// The text runs of a laid-out line with a composition: the whole text as one run, or the
/// text before the marked range, the marked range (underlined) and the text after it, as
/// `(byte length, underlined)` pairs, leaving out empty runs.
pub open spec fn marked_segments_of(total: int, marked: Option<Range<usize>>) -> Seq<(usize, bool)> {
    match marked {
        None => seq![(total as usize, false)],
        Some(m) => {
            let before = m.start as int;
            let inside = if m.end > m.start {
                m.end - m.start
            } else {
                0
            };
            let after = if total > m.end {
                total - m.end
            } else {
                0
            };
            let s1 = if before > 0 {
                seq![(before as usize, false)]
            } else {
                Seq::empty()
            };
            let s2 = if inside > 0 {
                seq![(inside as usize, true)]
            } else {
                Seq::empty()
            };
            let s3 = if after > 0 {
                seq![(after as usize, false)]
            } else {
                Seq::empty()
            };
            s1 + s2 + s3
        },
    }
}

/// Splits a run of `total` bytes around the marked (composing) range.
pub fn marked_text_runs(total: usize, marked: Option<Range<usize>>) -> (r: Vec<(usize, bool)>)
    ensures
        r@ == marked_segments_of(total as int, marked),
{
    let mut out: Vec<(usize, bool)> = Vec::new();
    match marked {
        None => {
            out.push((total, false));
            proof {
                assert(out@ =~= seq![(total, false)]);
            }
        },
        Some(m) => {
            let before = m.start;
            let inside = if m.end > m.start {
                m.end - m.start
            } else {
                0
            };
            let after = if total > m.end {
                total - m.end
            } else {
                0
            };
            if before > 0 {
                out.push((before, false));
            }
            if inside > 0 {
                out.push((inside, true));
            }
            if after > 0 {
                out.push((after, false));
            }
            proof {
                let s1 = if before > 0 {
                    seq![(before, false)]
                } else {
                    Seq::<(usize, bool)>::empty()
                };
                let s2 = if inside > 0 {
                    seq![(inside, true)]
                } else {
                    Seq::<(usize, bool)>::empty()
                };
                let s3 = if after > 0 {
                    seq![(after, false)]
                } else {
                    Seq::<(usize, bool)>::empty()
                };
                assert(out@ =~= s1 + s2 + s3);
            }
        },
    }
    out
}

} // verus!
