//! The in-memory data source of a select: rows in order, the canonical rule for repeated
//! ids and values, and the index of enabled options that keyboard navigation and
//! type-ahead search walk.
use std::collections::hash_map::DefaultHasher;
use std::collections::{HashMap, HashSet};
use std::hash::{BuildHasher, BuildHasherDefault};
use vstd::prelude::*;

use super::types::{
    entry_id, header_of, option_name, SelectChild, SelectEntry, SelectGroup, SelectGroupHeader,
    SelectOption,
};
use crate::data_source::LazyDataSource;
use crate::text::boundary::{search_sorted, strictly_increasing};
use crate::text::utf::chars_of;

verus! {

broadcast use vstd::std_specs::hash::group_hash_axioms;

/// The option of an option row.
pub open spec fn opt_of(e: SelectEntry) -> SelectOption {
    e->Option_0
}

/// Two options share their id or their value.
pub open spec fn clashes(a: SelectOption, b: SelectOption) -> bool {
    a.id == b.id || a.value == b.value
}

/// Row `i` of `es` is an option whose id and value no earlier option has: the first of
/// its id and of its value.
pub open spec fn canonical_at(es: Seq<SelectEntry>, i: int) -> bool {
    &&& es[i] is Option
    &&& forall|j: int|
        0 <= j < i && es[j] is Option ==> !clashes(#[trigger] opt_of(es[j]), opt_of(es[i]))
}

/// No two canonical options share an id or a value: a value designates at most one
/// canonical option, the first that carries it.
pub proof fn lemma_canonical_options_distinct(es: Seq<SelectEntry>, i: int, j: int)
    requires
        0 <= i < j < es.len(),
        canonical_at(es, i),
        canonical_at(es, j),
    ensures
        opt_of(es[i]).id != opt_of(es[j]).id,
        opt_of(es[i]).value != opt_of(es[j]).value,
{
    assert(!clashes(opt_of(es[i]), opt_of(es[j])));
}

/// Row `i` as the data source keeps it: an option that is not canonical stays visible
/// but is disabled.
pub open spec fn adjusted_entry(es: Seq<SelectEntry>, i: int) -> SelectEntry {
    match es[i] {
        SelectEntry::Option(o) => SelectEntry::Option(
            SelectOption {
                canonical: canonical_at(es, i),
                disabled: o.disabled || !canonical_at(es, i),
                ..o
            },
        ),
        SelectEntry::Group(g) => SelectEntry::Group(g),
    }
}

/// The row can be selected: an option that is not disabled.
pub open spec fn is_enabled_entry(e: SelectEntry) -> bool {
    e is Option && !opt_of(e).disabled
}

/// Number of option rows among the first `i` rows.
pub open spec fn options_before(es: Seq<SelectEntry>, i: int) -> nat
    decreases i,
{
    if i <= 0 {
        0
    } else {
        options_before(es, i - 1) + if es[i - 1] is Option {
            1nat
        } else {
            0nat
        }
    }
}

/// `enabled` lists, in increasing order, exactly the enabled rows of `es`.
pub open spec fn lists_enabled_rows(es: Seq<SelectEntry>, enabled: Seq<usize>) -> bool {
    &&& strictly_increasing(enabled)
    &&& forall|k: int| 0 <= k < enabled.len() ==> #[trigger] enabled[k] < es.len() && is_enabled_entry(es[enabled[k] as int])
    &&& forall|i: int| 0 <= i < es.len() && is_enabled_entry(#[trigger] es[i]) ==> enabled.contains(i as usize)
}

/// The rows of a list of options.
pub open spec fn option_rows(options: Seq<SelectOption>) -> Seq<SelectEntry> {
    Seq::new(options.len(), |i: int| SelectEntry::Option(options[i]))
}


/// The Unicode lower-case mapping of a text (`str::to_lowercase`).
pub uninterp spec fn lowercase_of(s: Seq<char>) -> Seq<char>;

/// Lower-cases `s`, from `str::to_lowercase` of std.
#[verifier::external_body]
pub(crate) fn to_lowercase(s: &str) -> (r: String)
    ensures
        r@ == lowercase_of(s@),
{
    s.to_lowercase()
}

/// `p` is a prefix of `s`.
pub open spec fn has_prefix(s: Seq<char>, p: Seq<char>) -> bool {
    p.len() <= s.len() && s.subrange(0, p.len() as int) == p
}

/// Whether `s` starts with `p`.
pub fn starts_with(s: &str, p: &str) -> (r: bool)
    ensures
        r == has_prefix(s@, p@),
{
    let a = chars_of(s);
    let b = chars_of(p);
    if b.len() > a.len() {
        return false;
    }
    let mut i: usize = 0;
    while i < b.len()
        invariant
            a@ == s@,
            b@ == p@,
            b@.len() <= a@.len(),
            i <= b@.len(),
            forall|j: int| 0 <= j < i ==> a@[j] == b@[j],
        decreases b@.len() - i,
    {
        if a[i] != b[i] {
            assert(s@.subrange(0, p@.len() as int)[i as int] != p@[i as int]);
            return false;
        }
        i += 1;
    }
    assert(s@.subrange(0, p@.len() as int) =~= p@);
    true
}

/// The row is an option whose lower-cased accessible name starts with `query`.
pub open spec fn matches_query(e: SelectEntry, query: Seq<char>) -> bool {
    e is Option && has_prefix(lowercase_of(option_name(opt_of(e))), query)
}

/// Number of enabled rows not after `x` (the enabled rows are in increasing order).
pub open spec fn count_not_after(v: Seq<usize>, x: int) -> int {
    choose|p: int| #[trigger] splits_at(v, x, p)
}

/// The first `p` elements of `v` are not after `x` and the others are.
pub open spec fn splits_at(v: Seq<usize>, x: int, p: int) -> bool {
    &&& 0 <= p <= v.len()
    &&& forall|k: int| 0 <= k < p ==> #[trigger] v[k] <= x
    &&& forall|k: int| p <= k < v.len() ==> #[trigger] v[k] > x
}

/// Position `start + k` taken round a list of `n`.
pub open spec fn around(start: int, k: int, n: int) -> int {
    if start + k < n {
        start + k
    } else {
        start + k - n
    }
}

/// The enabled option `k` steps round the list from position `start` matches `query`.
pub open spec fn hit(entries: Seq<SelectEntry>, enabled: Seq<usize>, query: Seq<char>, start: int, k: int) -> bool {
    matches_query(entries[enabled[around(start, k, enabled.len() as int)] as int], query)
}

/// Where the type-ahead walk starts: after the enabled rows not after `after`.
pub open spec fn search_start(enabled: Seq<usize>, after: Option<usize>) -> int {
    match after {
        Some(a) => count_not_after(enabled, a as int),
        None => 0,
    }
}

/// Some enabled option, walking round from `start`, matches `query`.
pub open spec fn some_hit(entries: Seq<SelectEntry>, enabled: Seq<usize>, query: Seq<char>, start: int) -> bool {
    exists|k: int| 0 <= k < enabled.len() && #[trigger] hit(entries, enabled, query, start, k)
}

/// The first matching step of the walk from `start`.
pub open spec fn first_hit(entries: Seq<SelectEntry>, enabled: Seq<usize>, query: Seq<char>, start: int) -> int {
    choose|k: int|
        0 <= k < enabled.len() && #[trigger] hit(entries, enabled, query, start, k) && forall|k2: int|
            0 <= k2 < k ==> !#[trigger] hit(entries, enabled, query, start, k2)
}

/// The type-ahead rule: walking the enabled options round the list from the first one
/// after `after` (from the start without one), the first whose lower-cased name starts
/// with the (already lower-cased) query.
pub open spec fn search_prefix_of(entries: Seq<SelectEntry>, enabled: Seq<usize>, query: Seq<char>, after: Option<usize>) -> Option<usize> {
    if query.len() == 0 || enabled.len() == 0 {
        None
    } else if some_hit(entries, enabled, query, search_start(enabled, after)) {
        let start = search_start(enabled, after);
        Some(enabled[around(start, first_hit(entries, enabled, query, start), enabled.len() as int)])
    } else {
        None
    }
}

/// The rows of one child: an option, or a group's title row followed by its options.
pub open spec fn child_rows(c: SelectChild) -> Seq<SelectEntry> {
    match c {
        SelectChild::Option(o) => seq![SelectEntry::Option(o)],
        SelectChild::Group(g) => seq![SelectEntry::Group(header_of(g))] + option_rows(g.options@),
    }
}

/// The rows of a list of children, in order.
pub open spec fn flatten_children(cs: Seq<SelectChild>) -> Seq<SelectEntry>
    decreases cs.len(),
{
    if cs.len() == 0 {
        Seq::empty()
    } else {
        flatten_children(cs.drop_last()) + child_rows(cs.last())
    }
}

/// What the revision of a data source hashes of row `i`: its index, its id and, for an
/// option, its value and whether it ends up disabled.
pub open spec fn revision_row(i: int, e: SelectEntry) -> (usize, u64, Option<(u64, bool)>) {
    (
        i as usize,
        entry_id(e),
        match e {
            SelectEntry::Option(o) => Some((o.value, o.disabled)),
            SelectEntry::Group(_) => None,
        },
    )
}

/// The revision of the rows described by `rows`, in order: `BuildHasher::hash_one` of
/// the records with std's `BuildHasherDefault<DefaultHasher>`, so that a change of a
/// row's index, id, value or disabled flag makes a new revision. Nothing is stated of the
/// value: std fixes neither the hashing algorithm across releases nor the byte order in
/// which integers are hashed across machines.
#[verifier::external_body]
fn rows_revision(rows: &[(usize, u64, Option<(u64, bool)>)]) -> u64 {
    BuildHasherDefault::<DefaultHasher>::default().hash_one(rows)
}

/// `keys` maps each id of the rows to the first row with it, and nothing else.
pub open spec fn indexes_first_ids(es: Seq<SelectEntry>, keys: Map<u64, usize>) -> bool {
    &&& forall|k: u64|
        #[trigger] keys.contains_key(k) ==> keys[k] < es.len() && entry_id(es[keys[k] as int]) == k
            && forall|j: int| 0 <= j < keys[k] ==> entry_id(#[trigger] es[j]) != k
    &&& forall|j: int| 0 <= j < es.len() ==> keys.contains_key(entry_id(#[trigger] es[j]))
}

/// `values` maps each value of a canonical option to a canonical option row with it, and
/// nothing else.
pub open spec fn indexes_canonical_values(es: Seq<SelectEntry>, values: Map<u64, usize>) -> bool {
    &&& forall|v: u64|
        #[trigger] values.contains_key(v) ==> values[v] < es.len() && es[values[v] as int] is Option
            && opt_of(es[values[v] as int]).canonical && opt_of(es[values[v] as int]).value == v
    &&& forall|j: int|
        0 <= j < es.len() && #[trigger] es[j] is Option && opt_of(es[j]).canonical
            ==> values.contains_key(opt_of(es[j]).value)
}

/// The in-memory data source of a select.
pub struct OwnedSelectDataSource {
    entries: Vec<SelectEntry>,
    keys: HashMap<u64, usize>,
    values: HashMap<u64, usize>,
    enabled: Vec<usize>,
    option_positions: Vec<Option<usize>>,
    option_count: usize,
    revision: u64,
}

impl OwnedSelectDataSource {
    /// The index of enabled rows, and the option positions, agree with the rows.
    #[verifier::type_invariant]
    pub closed spec fn consistent(self) -> bool {
        &&& lists_enabled_rows(self.entries@, self.enabled@)
        &&& indexes_first_ids(self.entries@, self.keys@)
        &&& indexes_canonical_values(self.entries@, self.values@)
        &&& self.option_positions@.len() == self.entries@.len()
        &&& forall|i: int|
            0 <= i < self.entries@.len() ==> #[trigger] self.option_positions@[i] == if self.entries@[i] is Option {
                Some(options_before(self.entries@, i) as usize)
            } else {
                None
            }
        &&& self.option_count == options_before(self.entries@, self.entries@.len() as int)
    }

    /// The enabled rows listed are exactly the enabled option rows, in order.
    pub proof fn lemma_consistent(&self)
        requires
            self.consistent(),
        ensures
            lists_enabled_rows(self.entries_spec(), self.enabled_spec()),
    {
    }

    /// The rows.
    pub closed spec fn entries_spec(&self) -> Seq<SelectEntry> {
        self.entries@
    }

    /// The enabled rows, in order.
    pub closed spec fn enabled_spec(&self) -> Seq<usize> {
        self.enabled@
    }

    /// The revision.
    pub closed spec fn revision_spec(&self) -> u64 {
        self.revision
    }

    /// A data source over option and group rows. An option whose id or value an earlier
    /// option already has stays visible but is disabled and not canonical. The revision
    /// is a hash of each row's index and id and, for an option, its value and disabled
    /// flag.
    pub fn from_entries(entries: Vec<SelectEntry>) -> (r: OwnedSelectDataSource)
        requires
            entries@.len() < usize::MAX,
        ensures
            r.entries_spec().len() == entries@.len(),
            forall|i: int|
                0 <= i < entries@.len() ==> #[trigger] r.entries_spec()[i] == adjusted_entry(
                    entries@,
                    i,
                ),
            lists_enabled_rows(r.entries_spec(), r.enabled_spec()),
    {
        let ghost es = entries@;
        let n = entries.len();
        let mut seen_ids: HashSet<u64> = HashSet::new();
        let mut seen_values: HashSet<u64> = HashSet::new();
        let mut out: Vec<SelectEntry> = Vec::new();
        let mut enabled: Vec<usize> = Vec::new();
        let mut positions: Vec<Option<usize>> = Vec::new();
        let mut count: usize = 0;
        let mut index: usize = 0;
        let mut rows: Vec<(usize, u64, Option<(u64, bool)>)> = Vec::new();
        let mut keys: HashMap<u64, usize> = HashMap::new();
        let mut values: HashMap<u64, usize> = HashMap::new();
        for e in it: entries
            invariant
                es.len() == n,
                indexes_first_ids(out@, keys@),
                indexes_canonical_values(out@, values@),
                rows@.len() == index,
                forall|i: int| 0 <= i < index ==> #[trigger] rows@[i] == revision_row(i, out@[i]),
                n < usize::MAX,
                it.seq() == es,
                index == it.index(),
                index <= n,
                out@.len() == index,
                forall|i: int| 0 <= i < index ==> #[trigger] out@[i] == adjusted_entry(es, i),
                forall|x: u64|
                    seen_ids@.contains(x) <==> exists|j: int|
                        0 <= j < index && es[j] is Option && #[trigger] opt_of(es[j]).id == x,
                forall|x: u64|
                    seen_values@.contains(x) <==> exists|j: int|
                        0 <= j < index && es[j] is Option && #[trigger] opt_of(es[j]).value == x,
                strictly_increasing(enabled@),
                forall|k: int|
                    0 <= k < enabled@.len() ==> #[trigger] enabled@[k] < index && is_enabled_entry(
                        out@[enabled@[k] as int],
                    ),
                forall|i: int|
                    0 <= i < index && is_enabled_entry(#[trigger] out@[i]) ==> enabled@.contains(
                        i as usize,
                    ),
                positions@.len() == index,
                forall|i: int|
                    0 <= i < index ==> #[trigger] positions@[i] == if out@[i] is Option {
                        Some(options_before(out@, i) as usize)
                    } else {
                        None
                    },
                count == options_before(out@, index as int),
                count <= index,
        {
            proof {
                assert(es[index as int] == e);
            }
            let ghost before = out@;
            let ghost before_enabled = enabled@;
            let ghost before_ids = seen_ids@;
            let ghost before_values = seen_values@;
            let ghost before_rows = rows@;
            let ghost before_keys = keys@;
            let ghost before_value_map = values@;
            let id = e.id();
            if !keys.contains_key(&id) {
                keys.insert(id, index);
            }
            match e {
                SelectEntry::Option(o) => {
                    let new_id = seen_ids.insert(o.id);
                    let new_value = seen_values.insert(o.value);
                    let canonical = new_id && new_value;
                    proof {
                        if canonical {
                            assert forall|j: int| 0 <= j < index && es[j] is Option implies !clashes(
                                #[trigger] opt_of(es[j]),
                                opt_of(es[index as int]),
                            ) by {
                                if opt_of(es[j]).id == o.id {
                                    assert(before_ids.contains(o.id));
                                }
                                if opt_of(es[j]).value == o.value {
                                    assert(before_values.contains(o.value));
                                }
                            }
                        } else {
                            if !new_id {
                                let j = choose|j: int|
                                    0 <= j < index && es[j] is Option && #[trigger] opt_of(es[j]).id == o.id;
                                assert(clashes(opt_of(es[j]), opt_of(es[index as int])));
                            } else {
                                let j = choose|j: int|
                                    0 <= j < index && es[j] is Option && #[trigger] opt_of(es[j]).value
                                        == o.value;
                                assert(clashes(opt_of(es[j]), opt_of(es[index as int])));
                            }
                        }
                    }
                    let disabled = o.disabled || !canonical;
                    rows.push((index, o.id, Some((o.value, disabled))));
                    if canonical {
                        values.insert(o.value, index);
                    }
                    let kept = SelectOption { canonical, disabled, ..o };
                    out.push(SelectEntry::Option(kept));
                    positions.push(Some(count));
                    if !disabled {
                        enabled.push(index);
                    }
                    proof {
                        assert(options_before(out@, index + 1) == options_before(out@, index as int) + 1);
                        lemma_options_before_prefix(out@, before, index as int);
                    }
                    count = count + 1;
                },
                SelectEntry::Group(g) => {
                    rows.push((index, g.id, None));
                    out.push(SelectEntry::Group(g));
                    positions.push(None);
                    proof {
                        lemma_options_before_prefix(out@, before, index as int);
                        assert(options_before(out@, index + 1) == options_before(out@, index as int));
                    }
                },
            }
            proof {
                assert forall|x: u64| seen_ids@.contains(x) implies exists|j: int|
                    0 <= j < index + 1 && es[j] is Option && #[trigger] opt_of(es[j]).id == x by {
                    if !before_ids.contains(x) {
                        assert(opt_of(es[index as int]).id == x);
                    }
                }
                assert forall|x: u64| seen_values@.contains(x) implies exists|j: int|
                    0 <= j < index + 1 && es[j] is Option && #[trigger] opt_of(es[j]).value == x by {
                    if !before_values.contains(x) {
                        assert(opt_of(es[index as int]).value == x);
                    }
                }
                assert forall|i: int| 0 <= i < index + 1 implies #[trigger] out@[i] == adjusted_entry(
                    es,
                    i,
                ) by {
                    if i < index {
                        assert(out@[i] == before[i]);
                    }
                }
                assert forall|i: int| 0 <= i < index + 1 implies #[trigger] rows@[i] == revision_row(
                    i,
                    out@[i],
                ) by {
                    if i < index {
                        assert(out@[i] == before[i]);
                        assert(rows@[i] == before_rows[i]);
                    }
                }
                assert forall|i: int| 0 <= i < index + 1 && is_enabled_entry(#[trigger] out@[i]) implies enabled@.contains(
                    i as usize,
                ) by {
                    if i < index {
                        assert(out@[i] == before[i]);
                        let k = choose|k: int| 0 <= k < before_enabled.len() && before_enabled[k] == i as usize;
                        assert(enabled@[k] == i as usize);
                    } else {
                        assert(enabled@[before_enabled.len() as int] == i as usize);
                    }
                }
                assert forall|k: int| 0 <= k < enabled@.len() implies #[trigger] enabled@[k] < index + 1
                    && is_enabled_entry(out@[enabled@[k] as int]) by {
                    if k < before_enabled.len() {
                        assert(enabled@[k] == before_enabled[k]);
                        assert(out@[enabled@[k] as int] == before[enabled@[k] as int]);
                    }
                }
                assert forall|i: int| 0 <= i < index + 1 implies #[trigger] positions@[i] == if out@[i] is Option {
                    Some(options_before(out@, i) as usize)
                } else {
                    None
                } by {
                    if i < index {
                        assert(out@[i] == before[i]);
                    }
                }
            }
            index = index + 1;
        }
        let revision = rows_revision(rows.as_slice());
        OwnedSelectDataSource {
            entries: out,
            keys,
            values,
            enabled,
            option_positions: positions,
            option_count: count,
            revision,
        }
    }

    /// A data source over top-level options only.
    pub fn from_options(options: Vec<SelectOption>) -> (r: OwnedSelectDataSource)
        requires
            options@.len() < usize::MAX,
        ensures
            r.entries_spec().len() == options@.len(),
            forall|i: int|
                0 <= i < options@.len() ==> #[trigger] r.entries_spec()[i] == adjusted_entry(
                    option_rows(options@),
                    i,
                ),
            lists_enabled_rows(r.entries_spec(), r.enabled_spec()),
    {
        let mut entries: Vec<SelectEntry> = Vec::new();
        for o in it: options
            invariant
                it.seq() == options@,
                entries@.len() == it.index(),
                forall|i: int| 0 <= i < entries@.len() ==> #[trigger] entries@[i] == SelectEntry::Option(options@[i]),
        {
            entries.push(SelectEntry::Option(o));
        }
        proof {
            assert(entries@ =~= option_rows(options@));
        }
        Self::from_entries(entries)
    }

    /// A data source over the options of an array.
    pub fn from_array<const N: usize>(options: [SelectOption; N]) -> (r: OwnedSelectDataSource)
        requires
            N < usize::MAX,
        ensures
            r.entries_spec().len() == N,
            forall|i: int|
                0 <= i < N ==> #[trigger] r.entries_spec()[i] == adjusted_entry(
                    option_rows(options@),
                    i,
                ),
            lists_enabled_rows(r.entries_spec(), r.enabled_spec()),
    {
        Self::from_options(crate::data_source::vec_from_array(options))
    }

    /// A data source over top-level options and groups: each group gives its title row
    /// followed by its options.
    pub fn from_children(children: Vec<SelectChild>) -> (r: OwnedSelectDataSource)
        requires
            flatten_children(children@).len() < usize::MAX,
        ensures
            r.entries_spec().len() == flatten_children(children@).len(),
            forall|i: int|
                0 <= i < r.entries_spec().len() ==> #[trigger] r.entries_spec()[i] == adjusted_entry(
                    flatten_children(children@),
                    i,
                ),
            lists_enabled_rows(r.entries_spec(), r.enabled_spec()),
    {
        let ghost cs = children@;
        let mut entries: Vec<SelectEntry> = Vec::new();
        for child in it: children
            invariant
                it.seq() == cs,
                entries@ == flatten_children(cs.take(it.index() as int)),
        {
            let ghost i = it.index();
            proof {
                assert(cs.take(i + 1).drop_last() =~= cs.take(i as int));
                assert(cs.take(i + 1).last() == cs[i as int]);
            }
            match child {
                SelectChild::Option(o) => {
                    entries.push(SelectEntry::Option(o));
                    proof {
                        assert(entries@ =~= flatten_children(cs.take(i + 1)));
                    }
                },
                SelectChild::Group(g) => {
                    let ghost gv = g;
                    let SelectGroup { id, label, aria_label, options } = g;
                    entries.push(SelectEntry::Group(SelectGroupHeader { id, label, aria_label }));
                    let ghost mid = entries@;
                    for o in jt: options
                        invariant
                            jt.seq() == gv.options@,
                            entries@ == mid + option_rows(gv.options@.take(jt.index() as int)),
                    {
                        let ghost j = jt.index();
                        entries.push(SelectEntry::Option(o));
                        proof {
                            assert(option_rows(gv.options@.take(j + 1)) =~= option_rows(
                                gv.options@.take(j as int),
                            ).push(SelectEntry::Option(gv.options@[j as int])));
                        }
                    }
                    proof {
                        assert(gv.options@.take(gv.options@.len() as int) =~= gv.options@);
                        assert(entries@ =~= flatten_children(cs.take(i + 1)));
                    }
                },
            }
        }
        proof {
            assert(cs.take(cs.len() as int) =~= cs);
        }
        Self::from_entries(entries)
    }

    /// Sets the revision.
    pub fn with_revision(self, revision: u64) -> (r: OwnedSelectDataSource)
        ensures
            r.entries_spec() == self.entries_spec(),
            r.enabled_spec() == self.enabled_spec(),
            r.revision_spec() == revision,
    {
        proof {
            use_type_invariant(&self);
        }
        OwnedSelectDataSource { revision, ..self }
    }

    /// The row at `index`, if any.
    pub fn entry(&self, index: usize) -> (r: Option<&SelectEntry>)
        ensures
            match r {
                Some(e) => index < self.entries_spec().len() && *e == self.entries_spec()[index as int],
                None => index >= self.entries_spec().len(),
            },
    {
        if index < self.entries.len() {
            Some(&self.entries[index])
        } else {
            None
        }
    }

    /// The first row with id `key`.
    pub fn index_of_key(&self, key: u64) -> (r: Option<usize>)
        ensures
            match r {
                Some(i) => i < self.entries_spec().len() && entry_id(self.entries_spec()[i as int])
                    == key && forall|j: int| 0 <= j < i ==> entry_id(#[trigger] self.entries_spec()[j]) != key,
                None => forall|j: int|
                    0 <= j < self.entries_spec().len() ==> entry_id(#[trigger] self.entries_spec()[j]) != key,
            },
    {
        proof {
            use_type_invariant(self);
        }
        match self.keys.get(&key) {
            Some(i) => Some(*i),
            None => None,
        }
    }

    /// The canonical option with value `value`.
    pub fn index_of_value(&self, value: u64) -> (r: Option<usize>)
        ensures
            match r {
                Some(i) => i < self.entries_spec().len() && self.entries_spec()[i as int] is Option
                    && opt_of(self.entries_spec()[i as int]).canonical && opt_of(
                    self.entries_spec()[i as int],
                ).value == value,
                None => forall|j: int|
                    0 <= j < self.entries_spec().len() && #[trigger] self.entries_spec()[j] is Option
                        && opt_of(self.entries_spec()[j]).canonical ==> opt_of(
                        self.entries_spec()[j],
                    ).value != value,
            },
    {
        proof {
            use_type_invariant(self);
        }
        match self.values.get(&value) {
            Some(i) => Some(*i),
            None => None,
        }
    }

    /// The first enabled option.
    pub fn first_enabled(&self) -> (r: Option<usize>)
        ensures
            r == (if self.enabled_spec().len() > 0 {
                Some(self.enabled_spec()[0])
            } else {
                None
            }),
    {
        if self.enabled.len() > 0 {
            Some(self.enabled[0])
        } else {
            None
        }
    }

    /// The last enabled option.
    pub fn last_enabled(&self) -> (r: Option<usize>)
        ensures
            r == (if self.enabled_spec().len() > 0 {
                Some(self.enabled_spec().last())
            } else {
                None
            }),
    {
        if self.enabled.len() > 0 {
            Some(self.enabled[self.enabled.len() - 1])
        } else {
            None
        }
    }

    /// Whether the row at `index` is an enabled option.
    pub fn is_enabled(&self, index: usize) -> (r: bool)
        ensures
            r == self.enabled_spec().contains(index),
            r == (index < self.entries_spec().len() && is_enabled_entry(
                self.entries_spec()[index as int],
            )),
    {
        proof {
            use_type_invariant(self);
        }
        match search_sorted(self.enabled.as_slice(), index) {
            Ok(_) => true,
            Err(_) => false,
        }
    }

    /// Number of enabled rows not after `index`: where `index` would go in the enabled list.
    fn enabled_not_after(&self, index: usize) -> (p: usize)
        ensures
            p <= self.enabled_spec().len(),
            forall|k: int| 0 <= k < p ==> #[trigger] self.enabled_spec()[k] <= index,
            forall|k: int| p <= k < self.enabled_spec().len() ==> #[trigger] self.enabled_spec()[k] > index,
    {
        proof {
            use_type_invariant(self);
        }
        let n = self.enabled.len();
        match search_sorted(self.enabled.as_slice(), index) {
            Ok(i) => {
                proof {
                    assert(i < n);
                    assert forall|k: int| 0 <= k < i + 1 implies #[trigger] self.enabled@[k] <= index by {
                        if k < i {
                            assert(self.enabled@[k] < self.enabled@[i as int]);
                        }
                    }
                    assert forall|k: int| i + 1 <= k < self.enabled@.len() implies #[trigger] self.enabled@[k] > index by {
                        assert(self.enabled@[i as int] < self.enabled@[k]);
                    }
                }
                i + 1
            },
            Err(i) => i,
        }
    }

    /// The next enabled option after `index` (forward) or before it (backward); when
    /// there is none, the first (last) enabled option if `wrap`, else `None`.
    pub fn next_enabled(&self, index: usize, forward: bool, wrap: bool) -> (r: Option<usize>)
        ensures
            r == next_enabled_of(self.enabled_spec(), index as int, forward, wrap),
    {
        proof {
            use_type_invariant(self);
        }
        let n = self.enabled.len();
        if n == 0 {
            return None;
        }
        if forward {
            let p = self.enabled_not_after(index);
            if p < n {
                proof {
                    lemma_first_above_is(self.enabled@, index as int, p as int);
                }
                Some(self.enabled[p])
            } else {
                if wrap {
                    Some(self.enabled[0])
                } else {
                    None
                }
            }
        } else {
            let p = if index == 0 {
                0
            } else {
                self.enabled_not_after(index - 1)
            };
            proof {
                assert forall|k: int| 0 <= k < p implies #[trigger] self.enabled@[k] < index by {}
                assert forall|k: int| p <= k < n implies #[trigger] self.enabled@[k] >= index by {}
            }
            if p > 0 {
                proof {
                    lemma_last_below_is(self.enabled@, index as int, p as int);
                }
                Some(self.enabled[p - 1])
            } else {
                if wrap {
                    Some(self.enabled[n - 1])
                } else {
                    None
                }
            }
        }
    }

    /// Type-ahead search for `query` (already lower-cased), after the row `after`.
    pub fn search_prefix(&self, query: &str, after: Option<usize>) -> (r: Option<usize>)
        ensures
            r == search_prefix_of(self.entries_spec(), self.enabled_spec(), query@, after),
            r matches Some(i) ==> self.enabled_spec().contains(i),
    {
        proof {
            use_type_invariant(self);
        }
        let ghost es = self.entries@;
        let ghost v = self.enabled@;
        let n = self.enabled.len();
        let ql = chars_of(query).len();
        if ql == 0 || n == 0 {
            return None;
        }
        let start = match after {
            Some(a) => self.enabled_not_after(a),
            None => 0,
        };
        let ghost gstart = match after {
            Some(a) => count_not_after(v, a as int),
            None => 0,
        };
        proof {
            match after {
                Some(a) => {
                    lemma_count_not_after_unique(v, a as int, start as int);
                },
                None => {},
            }
        }
        let mut k: usize = 0;
        while k < n
            invariant
                es == self.entries@,
                v == self.enabled@,
                lists_enabled_rows(es, v),
                n == v.len(),
                n > 0,
                start <= n,
                start == gstart,
                gstart == search_start(v, after),
                query@.len() > 0,
                k <= n,
                forall|k2: int| 0 <= k2 < k ==> !#[trigger] hit(es, v, query@, start as int, k2),
            decreases n - k,
        {
            let pos = if k < n - start {
                start + k
            } else {
                k - (n - start)
            };
            assert(pos == around(start as int, k as int, n as int));
            let index = self.enabled[pos];
            match &self.entries[index] {
                SelectEntry::Option(o) => {
                    let name = o.accessible_label();
                    let low = to_lowercase(name.as_str());
                    if starts_with(low.as_str(), query) {
                        proof {
                            assert(hit(es, v, query@, start as int, k as int));
                            lemma_search_found(es, v, query@, after, start as int, k as int);
                            assert(v[pos as int] == index);
                            assert(v.contains(index));
                        }
                        return Some(index);
                    }
                },
                SelectEntry::Group(_) => {},
            }
            proof {
                assert(!hit(es, v, query@, start as int, k as int));
            }
            k += 1;
        }
        proof {
            lemma_search_not_found(es, v, query@, after, start as int);
        }
        None
    }

    /// Number of option rows (group rows not counted).
    pub fn option_count(&self) -> (r: usize)
        ensures
            r == options_before(self.entries_spec(), self.entries_spec().len() as int),
    {
        proof {
            use_type_invariant(self);
        }
        self.option_count
    }

    /// The position of the option row `index` among the options; `None` for a group row.
    pub fn option_position(&self, index: usize) -> (r: Option<usize>)
        ensures
            r == (if index < self.entries_spec().len() && self.entries_spec()[index as int] is Option {
                Some(options_before(self.entries_spec(), index as int) as usize)
            } else {
                None
            }),
    {
        proof {
            use_type_invariant(self);
        }
        if index < self.option_positions.len() {
            self.option_positions[index]
        } else {
            None
        }
    }
}

/// The rows of the select as a lazy data source: every row is loaded, keyed by its id.
impl LazyDataSource for OwnedSelectDataSource {
    type Item = SelectEntry;

    type Key = u64;

    open spec fn count_spec(&self) -> nat {
        self.entries_spec().len()
    }

    fn item_count(&self) -> (r: usize) {
        self.entries.len()
    }

    fn revision(&self) -> (r: u64)
        ensures
            r == self.revision_spec(),
    {
        self.revision
    }

    fn key(&self, index: usize) -> (r: u64)
        ensures
            r == entry_id(self.entries_spec()[index as int]),
    {
        self.entries[index].id()
    }

    open spec fn loaded_spec(&self, index: usize) -> bool {
        index < self.entries_spec().len()
    }

    fn item(&self, index: usize) -> (r: Option<SelectEntry>)
        ensures
            (index < self.entries_spec().len()) == (r is Some),
            r matches Some(e) ==> cloned(self.entries_spec()[index as int], e),
    {
        if index < self.entries.len() {
            Some(self.entries[index].clone())
        } else {
            None
        }
    }
}

/// `v[k]` is the first element of `v` after `x`.
pub open spec fn first_after_at(v: Seq<usize>, x: int, k: int) -> bool {
    0 <= k < v.len() && v[k] > x && forall|k2: int| 0 <= k2 < k ==> #[trigger] v[k2] <= x
}

/// `v[k]` is the last element of `v` before `x`.
pub open spec fn last_before_at(v: Seq<usize>, x: int, k: int) -> bool {
    0 <= k < v.len() && v[k] < x && forall|k2: int| k < k2 < v.len() ==> #[trigger] v[k2] >= x
}

/// The enabled row that the next-enabled rule picks: the first enabled row after `index`
/// (forward) or the last before it (backward), else the first (last) one if wrapping.
pub open spec fn next_enabled_of(enabled: Seq<usize>, index: int, forward: bool, wrap: bool) -> Option<usize> {
    if enabled.len() == 0 {
        None
    } else if forward {
        if exists|k: int| #[trigger] first_after_at(enabled, index, k) {
            Some(enabled[choose|k: int| #[trigger] first_after_at(enabled, index, k)])
        } else if wrap {
            Some(enabled[0])
        } else {
            None
        }
    } else {
        if exists|k: int| #[trigger] last_before_at(enabled, index, k) {
            Some(enabled[choose|k: int| #[trigger] last_before_at(enabled, index, k)])
        } else if wrap {
            Some(enabled.last())
        } else {
            None
        }
    }
}

proof fn lemma_first_above_is(v: Seq<usize>, x: int, p: int)
    requires
        strictly_increasing(v),
        0 <= p < v.len(),
        forall|k: int| 0 <= k < p ==> #[trigger] v[k] <= x,
        forall|k: int| p <= k < v.len() ==> #[trigger] v[k] > x,
    ensures
        next_enabled_of(v, x, true, true) == Some(v[p]),
        next_enabled_of(v, x, true, false) == Some(v[p]),
{
    assert(first_after_at(v, x, p));
    let c = choose|k: int| #[trigger] first_after_at(v, x, k);
    if c < p {
        assert(v[c] <= x);
    } else if c > p {
        assert(v[p] <= x);
    }
}

proof fn lemma_last_below_is(v: Seq<usize>, x: int, p: int)
    requires
        strictly_increasing(v),
        0 < p <= v.len(),
        forall|k: int| 0 <= k < p ==> #[trigger] v[k] < x,
        forall|k: int| p <= k < v.len() ==> #[trigger] v[k] >= x,
    ensures
        next_enabled_of(v, x, false, true) == Some(v[p - 1]),
        next_enabled_of(v, x, false, false) == Some(v[p - 1]),
{
    assert(last_before_at(v, x, p - 1));
    let c = choose|k: int| #[trigger] last_before_at(v, x, k);
    if c < p - 1 {
        assert(v[p - 1] >= x);
    } else if c > p - 1 {
        assert(v[c] >= x);
    }
}

proof fn lemma_search_found(es: Seq<SelectEntry>, v: Seq<usize>, q: Seq<char>, after: Option<usize>, start: int, k: int)
    requires
        v.len() > 0,
        q.len() > 0,
        start == search_start(v, after),
        0 <= k < v.len(),
        hit(es, v, q, start, k),
        forall|k2: int| 0 <= k2 < k ==> !#[trigger] hit(es, v, q, start, k2),
    ensures
        search_prefix_of(es, v, q, after) == Some(v[around(start, k, v.len() as int)]),
{
    assert(some_hit(es, v, q, start));
    let c = first_hit(es, v, q, start);
    if c < k {
    } else if c > k {
        assert(!hit(es, v, q, start, k));
    }
}

proof fn lemma_search_not_found(es: Seq<SelectEntry>, v: Seq<usize>, q: Seq<char>, after: Option<usize>, start: int)
    requires
        start == search_start(v, after),
        forall|k2: int| 0 <= k2 < v.len() ==> !#[trigger] hit(es, v, q, start, k2),
    ensures
        search_prefix_of(es, v, q, after) is None,
{
}

/// In an increasing list, the number of elements not after `x` is determined.
proof fn lemma_count_not_after_unique(v: Seq<usize>, x: int, p: int)
    requires
        strictly_increasing(v),
        0 <= p <= v.len(),
        forall|k: int| 0 <= k < p ==> #[trigger] v[k] <= x,
        forall|k: int| p <= k < v.len() ==> #[trigger] v[k] > x,
    ensures
        count_not_after(v, x) == p,
{
    assert(splits_at(v, x, p));
    let c = count_not_after(v, x);
    if c < p {
        assert(v[c] <= x);
    } else if c > p {
        assert(v[p] > x);
    }
}

/// Appending a row leaves the option counts of earlier prefixes unchanged.
proof fn lemma_options_before_prefix(now: Seq<SelectEntry>, before: Seq<SelectEntry>, index: int)
    requires
        now.len() == index + 1,
        before.len() == index,
        forall|i: int| 0 <= i < index ==> now[i] == before[i],
    ensures
        forall|i: int| 0 <= i <= index ==> #[trigger] options_before(now, i) == options_before(before, i),
{
    assert forall|i: int| 0 <= i <= index implies #[trigger] options_before(now, i) == options_before(before, i) by {
        lemma_options_before_eq(now, before, i);
    }
}

proof fn lemma_options_before_eq(a: Seq<SelectEntry>, b: Seq<SelectEntry>, i: int)
    requires
        0 <= i,
        i <= a.len(),
        i <= b.len(),
        forall|j: int| 0 <= j < i ==> a[j] == b[j],
    ensures
        options_before(a, i) == options_before(b, i),
    decreases i,
{
    if i > 0 {
        lemma_options_before_eq(a, b, i - 1);
    }
}

} // verus!
