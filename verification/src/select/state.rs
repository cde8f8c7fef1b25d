//! The popup's interaction state of a select: open or closed, the active option (kept
//! across data changes by its key), keyboard movement, paging and type-ahead.
use vstd::prelude::*;

use super::source::{
    first_after_at, last_before_at, lowercase_of, next_enabled_of, search_prefix_of,
    to_lowercase, OwnedSelectDataSource,
};
use super::types::entry_id;
use crate::data_source::LazyDataSource;
use crate::text::boundary::strictly_increasing;
use crate::text::segment::{grapheme_starts, grapheme_starts_of, piece_starts_wf};
use crate::text::utf::{
    byte_to_char, char_index_of_byte, lemma_boundary_le_len, lemma_byte_to_char_bounds,
    lemma_byte_to_char_mono, lemma_table_len_fits, same_text, table_substring, text_len,
    utf8_len, CharTable,
};
use crate::virtual_list::{empty_metrics, DeferredScroll, ScrollStrategy, VirtualListState};

verus! {

/// A keyboard movement of the active option.
#[derive(Clone, Copy, Debug, PartialEq, Eq, Structural)]
pub enum ActiveMovement {
    /// The previous enabled option.
    Previous,
    /// The next enabled option.
    Next,
    /// The first enabled option.
    First,
    /// The last enabled option.
    Last,
    /// About a page of rows up.
    PagePrevious,
    /// About a page of rows down.
    PageNext,
}

/// The plain part of the interaction state.
#[derive(Clone, Copy, Debug, PartialEq, Eq, Structural)]
pub struct SelectCore {
    /// The popup is open.
    pub open: bool,
    /// The options are shown (the status is ready).
    pub ready: bool,
    /// The active row.
    pub active_index: Option<usize>,
    /// The id of the active row, which keeps it across data changes.
    pub active_key: Option<u64>,
    /// Opening again returns to the active row.
    pub preserve_active_on_open: bool,
    /// Revision of the data last seen.
    pub source_revision: u64,
    /// Number of rows last seen.
    pub source_count: usize,
    /// Generation of the type-ahead timeout.
    pub typeahead_generation: u64,
    /// A type-ahead timeout of the current generation runs.
    pub typeahead_pending: bool,
}

/// The interaction state of a select's popup.
pub struct SelectInteraction {
    /// The plain state.
    pub core: SelectCore,
    /// The popup list's bookkeeping.
    pub list: VirtualListState,
    /// The characters typed since the last type-ahead timeout.
    pub typeahead_buffer: String,
}

/// The generation after `g`, wrapping.
pub open spec fn next_generation(g: u64) -> u64 {
    if g == u64::MAX {
        0
    } else {
        (g + 1) as u64
    }
}

fn bump(g: u64) -> (r: u64)
    ensures
        r == next_generation(g),
{
    if g == u64::MAX {
        0
    } else {
        g + 1
    }
}

/// The row `i` is an enabled option of the source.
pub open spec fn enabled_row(s: OwnedSelectDataSource, i: usize) -> bool {
    s.enabled_spec().contains(i)
}

/// The id of row `i`.
pub open spec fn key_at(s: OwnedSelectDataSource, i: usize) -> u64 {
    entry_id(s.entries_spec()[i as int])
}

/// The key of an optional row.
pub open spec fn key_of(s: OwnedSelectDataSource, a: Option<usize>) -> Option<u64> {
    match a {
        Some(i) => Some(key_at(s, i)),
        None => None,
    }
}

/// The first enabled option.
pub open spec fn first_of(s: OwnedSelectDataSource) -> Option<usize> {
    if s.enabled_spec().len() > 0 {
        Some(s.enabled_spec()[0])
    } else {
        None
    }
}

/// The last enabled option.
pub open spec fn last_of(s: OwnedSelectDataSource) -> Option<usize> {
    if s.enabled_spec().len() > 0 {
        Some(s.enabled_spec().last())
    } else {
        None
    }
}

/// `a` if it is an enabled row.
pub open spec fn if_enabled(s: OwnedSelectDataSource, a: Option<usize>) -> Option<usize> {
    match a {
        Some(i) => if enabled_row(s, i) {
            Some(i)
        } else {
            None
        },
        None => None,
    }
}

/// `a`, else `b`.
pub open spec fn or_else(a: Option<usize>, b: Option<usize>) -> Option<usize> {
    match a {
        Some(i) => Some(i),
        None => b,
    }
}

/// Row `i` is the first row whose id is `key`.
pub open spec fn is_first_key_at(s: OwnedSelectDataSource, key: u64, i: int) -> bool {
    &&& 0 <= i < s.entries_spec().len()
    &&& entry_id(s.entries_spec()[i]) == key
    &&& forall|j: int| 0 <= j < i ==> entry_id(#[trigger] s.entries_spec()[j]) != key
}

/// The first row whose id is `key`, if there is one.
pub open spec fn key_index_of(s: OwnedSelectDataSource, key: u64) -> Option<usize> {
    if exists|i: int| #[trigger] is_first_key_at(s, key, i) {
        Some((choose|i: int| #[trigger] is_first_key_at(s, key, i)) as usize)
    } else {
        None
    }
}

/// The enabled row that still carries the active option's id, if any.
pub open spec fn preserved_by_key(c: SelectCore, s: OwnedSelectDataSource) -> Option<usize> {
    match c.active_key {
        Some(k) => if_enabled(s, key_index_of(s, k)),
        None => None,
    }
}

/// The data differ from what was last seen: another revision or another number of rows.
pub open spec fn source_changed_from(c: SelectCore, s: OwnedSelectDataSource) -> bool {
    c.source_revision != s.revision_spec() || c.source_count != s.entries_spec().len()
}

/// The active option after a data change: on changed data it follows its id, else it moves
/// to a neighbouring enabled option; on the same data only an active option that is no
/// longer enabled moves.
pub open spec fn followed_core(c: SelectCore, s: OwnedSelectDataSource, changed: bool) -> SelectCore {
    if changed {
        let next = or_else(preserved_by_key(c, s), reconciled_active_of(s, c.active_index));
        SelectCore {
            active_index: next,
            active_key: key_of(s, next),
            preserve_active_on_open: if c.active_key is Some && preserved_by_key(c, s) is None {
                false
            } else {
                c.preserve_active_on_open
            },
            ..c
        }
    } else if c.active_index matches Some(i) && !enabled_row(s, i) {
        let next = reconciled_active_of(s, c.active_index);
        SelectCore { active_index: next, active_key: key_of(s, next), ..c }
    } else {
        c
    }
}

/// The state after reconciling with ready data: the data seen are recorded, the active
/// option follows the data, and an open popup without one takes the preferred enabled
/// option, else the first enabled one.
pub open spec fn reconciled_core(c: SelectCore, s: OwnedSelectDataSource, preferred: Option<usize>) -> SelectCore {
    let c1 = SelectCore {
        ready: true,
        source_revision: s.revision_spec(),
        source_count: s.entries_spec().len() as usize,
        ..c
    };
    let c2 = followed_core(c1, s, source_changed_from(c, s));
    if c2.open && c2.active_index is None {
        let a = or_else(if_enabled(s, preferred), first_of(s));
        SelectCore { active_index: a, active_key: key_of(s, a), ..c2 }
    } else {
        c2
    }
}

/// The active option when a ready popup opens: the preferred option if enabled, else the
/// option kept from before (when it is to be kept and still enabled), else the last or
/// first enabled option.
pub open spec fn opened_active(c: SelectCore, s: OwnedSelectDataSource, preferred: Option<usize>, from_end: bool) -> Option<usize> {
    let kept = if c.preserve_active_on_open {
        if_enabled(s, c.active_index)
    } else {
        None
    };
    or_else(
        if_enabled(s, preferred),
        or_else(
            kept,
            if from_end {
                last_of(s)
            } else {
                first_of(s)
            },
        ),
    )
}

/// The state after a ready popup opens.
pub open spec fn opened_core(c: SelectCore, s: OwnedSelectDataSource, preferred: Option<usize>, from_end: bool) -> SelectCore {
    let a = opened_active(c, s, preferred, from_end);
    SelectCore {
        open: true,
        active_index: a,
        active_key: key_of(s, a),
        preserve_active_on_open: a is Some,
        ..c
    }
}

/// Reopening a closed popup returns to the option that was active, while it is still
/// enabled and no other enabled option is preferred.
pub proof fn lemma_reopen_returns_to_active(
    c: SelectCore,
    s: OwnedSelectDataSource,
    preferred: Option<usize>,
    from_end: bool,
)
    requires
        c.preserve_active_on_open,
        c.active_index matches Some(i) && enabled_row(s, i),
        if_enabled(s, preferred) is None,
    ensures
        opened_core(SelectCore { open: false, ..c }, s, preferred, from_end).active_index
            == c.active_index,
{
}

/// Where the active option goes when it is no longer enabled: the next enabled option from
/// its place, else the previous one, else the first.
pub open spec fn reconciled_active_of(s: OwnedSelectDataSource, previous: Option<usize>) -> Option<usize> {
    match previous {
        None => None,
        Some(p) => {
            let down = next_enabled_of(
                s.enabled_spec(),
                if p == 0 {
                    0
                } else {
                    p - 1
                },
                true,
                false,
            );
            let up = next_enabled_of(
                s.enabled_spec(),
                if p == usize::MAX {
                    p as int
                } else {
                    p + 1
                },
                false,
                false,
            );
            or_else(down, or_else(up, first_of(s)))
        },
    }
}

/// Where the active option goes when the previous one left: see `reconciled_active_of`.
pub fn reconciled_active_index(source: &OwnedSelectDataSource, previous: Option<usize>) -> (r:
    Option<usize>)
    ensures
        r == reconciled_active_of(*source, previous),
{
    let p = match previous {
        Some(p) => p,
        None => return None,
    };
    let from = if p == 0 {
        0
    } else {
        p - 1
    };
    match source.next_enabled(from, true, false) {
        Some(i) => Some(i),
        None => {
            let back = if p == usize::MAX {
                p
            } else {
                p + 1
            };
            match source.next_enabled(back, false, false) {
                Some(i) => Some(i),
                None => source.first_enabled(),
            }
        },
    }
}

/// The deferred scroll after revealing the active row `a` of `list`.
pub open spec fn revealed_scroll(list: VirtualListState, a: Option<usize>) -> Option<DeferredScroll> {
    match a {
        Some(i) => match list.clamped_index_spec(i) {
            Some(c) => Some(
                DeferredScroll { item_index: c, strategy: ScrollStrategy::Nearest, strict: false },
            ),
            None => list.deferred_scroll,
        },
        None => list.deferred_scroll,
    }
}

/// The list's bookkeeping is the same apart from its scroll request.
pub open spec fn same_list_but_scroll(a: VirtualListState, b: VirtualListState) -> bool {
    &&& a.item_count == b.item_count
    &&& a.revision == b.revision
    &&& a.metrics == b.metrics
}

/// The type-ahead state is cleared.
pub open spec fn typeahead_cleared(c: SelectCore) -> SelectCore {
    SelectCore {
        typeahead_generation: next_generation(c.typeahead_generation),
        typeahead_pending: false,
        ..c
    }
}

impl SelectInteraction {
    /// Closed, not ready, nothing active.
    pub fn new() -> (r: SelectInteraction)
        ensures
            r.core == (SelectCore {
                open: false,
                ready: false,
                active_index: None,
                active_key: None,
                preserve_active_on_open: false,
                source_revision: 0,
                source_count: 0,
                typeahead_generation: 0,
                typeahead_pending: false,
            }),
            r.list.item_count == 0,
            r.list.revision == 0,
            empty_metrics(r.list.metrics),
            r.list.deferred_scroll is None,
            r.typeahead_buffer@.len() == 0,
    {
        SelectInteraction {
            core: SelectCore {
                open: false,
                ready: false,
                active_index: None,
                active_key: None,
                preserve_active_on_open: false,
                source_revision: 0,
                source_count: 0,
                typeahead_generation: 0,
                typeahead_pending: false,
            },
            list: VirtualListState::new(),
            typeahead_buffer: String::new(),
        }
    }

    fn reveal_active(&mut self)
        ensures
            final(self).core == old(self).core,
            final(self).typeahead_buffer == old(self).typeahead_buffer,
            same_list_but_scroll(final(self).list, old(self).list),
            final(self).list.deferred_scroll == revealed_scroll(old(self).list, old(self).core.active_index),
    {
        match self.core.active_index {
            Some(i) => self.list.reveal_index(i),
            None => {},
        }
    }

    fn clear_typeahead(&mut self)
        ensures
            final(self).core == typeahead_cleared(old(self).core),
            final(self).typeahead_buffer@.len() == 0,
            final(self).list == old(self).list,
    {
        self.core.typeahead_generation = bump(self.core.typeahead_generation);
        self.typeahead_buffer = String::new();
        self.core.typeahead_pending = false;
    }

    /// The type-ahead timeout started for `generation` ran out: a current one forgets the
    /// typed characters.
    pub fn typeahead_elapsed(&mut self, generation: u64)
        ensures
            generation == old(self).core.typeahead_generation ==> final(self).core == (SelectCore {
                typeahead_pending: false,
                ..old(self).core
            }) && final(self).typeahead_buffer@.len() == 0,
            generation != old(self).core.typeahead_generation ==> final(self).core == old(self).core && final(self).typeahead_buffer == old(self).typeahead_buffer,
            final(self).list == old(self).list,
    {
        if generation == self.core.typeahead_generation {
            self.typeahead_buffer = String::new();
            self.core.typeahead_pending = false;
        }
    }

    /// Closes the popup; returns whether it was open.
    pub fn close(&mut self) -> (r: bool)
        ensures
            r == old(self).core.open,
            final(self).core == (SelectCore { open: false, ..old(self).core }),
            final(self).list == old(self).list,
            final(self).typeahead_buffer == old(self).typeahead_buffer,
    {
        if !self.core.open {
            return false;
        }
        self.core.open = false;
        true
    }

    /// Brings the state in line with the data and the select's settings: a disabled
    /// select closes and forgets its active option; one whose options are not shown
    /// forgets it; otherwise the active option follows its key across data changes, moves
    /// to a neighbour when it stops being enabled, and an open popup without one takes the
    /// preferred (selected) option or the first. Returns whether the active option changed
    /// (or, for a disabled select, whether it was open or had one).
    pub fn reconcile(
        &mut self,
        source: &OwnedSelectDataSource,
        ready: bool,
        enabled: bool,
        preferred: Option<usize>,
    ) -> (changed: bool)
        ensures
            final(self).core.ready == ready,
            final(self).core.source_revision == source.revision_spec(),
            final(self).core.source_count == source.entries_spec().len(),
            final(self).list.item_count == source.entries_spec().len(),
            final(self).list.revision == source.revision_spec(),
            !enabled ==> !final(self).core.open && final(self).core.active_index is None
                && changed == (old(self).core.open || old(self).core.active_index is Some),
            enabled && !ready ==> final(self).core.active_index is None && final(self).core.open
                == old(self).core.open && changed == (old(self).core.active_index is Some),
            enabled && ready ==> final(self).core.open == old(self).core.open,
            enabled && ready ==> (final(self).core.active_index matches Some(i) ==> enabled_row(
                *source,
                i,
            )),
            enabled && ready && source.enabled_spec().len() > 0 && (old(self).core.open || old(self).core.active_index is Some) ==> final(self).core.active_index is Some,
            enabled && ready && final(self).core.active_index != old(self).core.active_index
                ==> final(self).core.active_key == key_of(*source, final(self).core.active_index),
            enabled && ready ==> changed == (final(self).core.active_index != old(self).core.active_index),
            !enabled ==> final(self).core == typeahead_cleared(
                SelectCore {
                    ready,
                    source_revision: source.revision_spec(),
                    source_count: source.entries_spec().len() as usize,
                    open: false,
                    active_index: None,
                    active_key: None,
                    preserve_active_on_open: false,
                    ..old(self).core
                },
            ),
            enabled && !ready ==> final(self).core == typeahead_cleared(
                SelectCore {
                    ready,
                    source_revision: source.revision_spec(),
                    source_count: source.entries_spec().len() as usize,
                    active_index: None,
                    active_key: None,
                    preserve_active_on_open: false,
                    ..old(self).core
                },
            ),
            !(enabled && ready) ==> final(self).typeahead_buffer@.len() == 0
                && final(self).list.deferred_scroll == old(self).list.deferred_scroll,
            enabled && ready ==> final(self).core == reconciled_core(old(self).core, *source, preferred)
                && final(self).typeahead_buffer == old(self).typeahead_buffer,
            enabled && ready ==> final(self).list.deferred_scroll == (match final(self).core.active_index {
                Some(i) => if Some(i) != old(self).core.active_index {
                    Some(DeferredScroll { item_index: i, strategy: ScrollStrategy::Nearest, strict: false })
                } else {
                    old(self).list.deferred_scroll
                },
                None => old(self).list.deferred_scroll,
            }),
    {
        let ghost c0 = self.core;
        self.core.ready = ready;
        let revision = source.revision();
        let count = source.item_count();
        let source_changed = self.core.source_revision != revision || self.core.source_count
            != count;
        self.core.source_revision = revision;
        self.core.source_count = count;
        self.list.reconcile(count, revision);
        if !enabled {
            let changed = self.core.open || self.core.active_index.is_some();
            self.core.open = false;
            self.core.active_index = None;
            self.core.active_key = None;
            self.core.preserve_active_on_open = false;
            self.clear_typeahead();
            return changed;
        }
        if !ready {
            let changed = self.core.active_index.is_some();
            self.core.active_index = None;
            self.core.active_key = None;
            self.core.preserve_active_on_open = false;
            self.clear_typeahead();
            return changed;
        }
        let previous = self.core.active_index;
        let ghost c1 = self.core;
        assert(c1 == SelectCore {
            ready: true,
            source_revision: source.revision_spec(),
            source_count: source.entries_spec().len() as usize,
            ..c0
        });
        assert(source_changed == source_changed_from(c0, *source));
        self.follow_active(source, source_changed);
        if self.core.open && self.core.active_index.is_none() {
            self.pick_active(source, preferred);
        }
        assert(self.core == reconciled_core(c0, *source, preferred));
        proof {
            use_type_invariant(source);
            lemma_enabled_rows_in_range(*source);
        }
        let moved = !same_index(self.core.active_index, previous);
        if moved {
            self.reveal_active();
        }
        moved
    }

    /// The active option follows its key when the data changed, and moves to a neighbour
    /// when it is no longer enabled.
    fn follow_active(&mut self, source: &OwnedSelectDataSource, source_changed: bool)
        ensures
            final(self).core.open == old(self).core.open,
            final(self).core.ready == old(self).core.ready,
            final(self).core.source_revision == old(self).core.source_revision,
            final(self).core.source_count == old(self).core.source_count,
            final(self).list == old(self).list,
            final(self).core.active_index matches Some(i) ==> enabled_row(*source, i),
            old(self).core.active_index is Some && source.enabled_spec().len() > 0
                ==> final(self).core.active_index is Some,
            final(self).core.active_index != old(self).core.active_index ==> final(self).core.active_key == key_of(*source, final(self).core.active_index),
            !source_changed && (old(self).core.active_index matches Some(i) && enabled_row(
                *source,
                i,
            )) ==> final(self).core.active_index == old(self).core.active_index,
            final(self).core == followed_core(old(self).core, *source, source_changed),
            final(self).typeahead_buffer == old(self).typeahead_buffer,
    {
        proof {
            use_type_invariant(source);
            lemma_enabled_rows_in_range(*source);
            lemma_reconciled_active_enabled(*source, self.core.active_index);
        }
        let previous = self.core.active_index;
        if source_changed {
            let preserved = match self.core.active_key {
                Some(key) => {
                    let found = source.index_of_key(key);
                    proof {
                        lemma_key_index_of(*source, key, found);
                    }
                    match found {
                        Some(i) => if source.is_enabled(i) {
                            Some(i)
                        } else {
                            None
                        },
                        None => None,
                    }
                },
                None => None,
            };
            assert(preserved == preserved_by_key(self.core, *source));
            if self.core.active_key.is_some() && preserved.is_none() {
                self.core.preserve_active_on_open = false;
            }
            let next = match preserved {
                Some(i) => Some(i),
                None => reconciled_active_index(source, previous),
            };
            self.set_active(source, next);
        } else {
            let stale = match self.core.active_index {
                Some(i) => !source.is_enabled(i),
                None => false,
            };
            if stale {
                let next = reconciled_active_index(source, previous);
                self.set_active(source, next);
            } else {
                proof {
                    match self.core.active_index {
                        Some(i) => {
                            assert(enabled_row(*source, i));
                        },
                        None => {},
                    }
                }
            }
        }
    }

    /// An open popup without an active option takes the preferred one if enabled, else the
    /// first enabled option.
    fn pick_active(&mut self, source: &OwnedSelectDataSource, preferred: Option<usize>)
        ensures
            final(self).core == (SelectCore {
                active_index: or_else(if_enabled(*source, preferred), first_of(*source)),
                active_key: key_of(*source, or_else(if_enabled(*source, preferred), first_of(*source))),
                ..old(self).core
            }),
            final(self).list == old(self).list,
            final(self).typeahead_buffer == old(self).typeahead_buffer,
            final(self).core.active_index matches Some(i) ==> enabled_row(*source, i),
            source.enabled_spec().len() > 0 ==> final(self).core.active_index is Some,
    {
        proof {
            use_type_invariant(source);
            lemma_enabled_rows_in_range(*source);
            lemma_first_last_enabled(*source);
        }
        let pick = match preferred {
            Some(i) => if source.is_enabled(i) {
                Some(i)
            } else {
                None
            },
            None => None,
        };
        let next = match pick {
            Some(i) => Some(i),
            None => source.first_enabled(),
        };
        self.set_active(source, next);
    }

    fn set_active(&mut self, source: &OwnedSelectDataSource, next: Option<usize>)
        requires
            next matches Some(i) ==> i < source.entries_spec().len(),
        ensures
            final(self).core == (SelectCore {
                active_index: next,
                active_key: key_of(*source, next),
                ..old(self).core
            }),
            final(self).list == old(self).list,
            final(self).typeahead_buffer == old(self).typeahead_buffer,
    {
        self.core.active_index = next;
        self.core.active_key = match next {
            Some(i) => Some(source.key(i)),
            None => None,
        };
    }

    /// Opens the popup. The active option becomes the preferred one if enabled, else the
    /// one kept from before if opening returns to it, else the first (or, from the end,
    /// the last) enabled option; with options not shown, none.
    pub fn open_with(
        &mut self,
        source: &OwnedSelectDataSource,
        preferred: Option<usize>,
        from_end: bool,
        scroll_to_active: bool,
    )
        ensures
            final(self).core.open,
            !old(self).core.ready ==> final(self).core == (SelectCore {
                open: true,
                active_index: None,
                active_key: None,
                ..old(self).core
            }) && final(self).list == old(self).list,
            old(self).core.ready ==> {
                let a = opened_active(old(self).core, *source, preferred, from_end);
                &&& final(self).core == opened_core(old(self).core, *source, preferred, from_end)
                &&& same_list_but_scroll(final(self).list, old(self).list)
                &&& final(self).list.deferred_scroll == if scroll_to_active {
                    revealed_scroll(old(self).list, a)
                } else {
                    old(self).list.deferred_scroll
                }
            },
            final(self).typeahead_buffer == old(self).typeahead_buffer,
    {
        proof {
            use_type_invariant(source);
            lemma_enabled_rows_in_range(*source);
            lemma_first_last_enabled(*source);
        }
        self.core.open = true;
        if !self.core.ready {
            self.core.active_index = None;
            self.core.active_key = None;
            return;
        }
        let pick = match preferred {
            Some(i) => if source.is_enabled(i) {
                Some(i)
            } else {
                None
            },
            None => None,
        };
        let kept = if self.core.preserve_active_on_open {
            match self.core.active_index {
                Some(i) => if source.is_enabled(i) {
                    Some(i)
                } else {
                    None
                },
                None => None,
            }
        } else {
            None
        };
        let fallback = if from_end {
            source.last_enabled()
        } else {
            source.first_enabled()
        };
        let next = match pick {
            Some(i) => Some(i),
            None => match kept {
                Some(i) => Some(i),
                None => fallback,
            },
        };
        self.set_active(source, next);
        self.core.preserve_active_on_open = next.is_some();
        if scroll_to_active {
            self.reveal_active();
        }
    }

    /// The page step: rows shown by the last frame minus two, at least one.
    fn page_rows(&self) -> (r: usize)
        ensures
            r == page_rows_of(self.list),
    {
        let range = self.list.visible_range();
        let shown: usize = if range.start < range.end {
            range.end - range.start
        } else {
            0
        };
        if shown > 3 {
            shown - 2
        } else {
            1
        }
    }

    /// About a page of rows from the active option (or, without one, from the first or
    /// last enabled option): the farthest enabled option within the page, or the start
    /// itself when none lies within it.
    pub fn page_target(&self, source: &OwnedSelectDataSource, forward: bool) -> (r: Option<usize>)
        ensures
            match page_start(self.core, *source, forward) {
                None => r is None,
                Some(st) => r matches Some(t) && is_page_target(
                    *source,
                    st,
                    page_boundary(self.core, self.list, st, forward),
                    forward,
                    t,
                ),
            },
    {
        proof {
            use_type_invariant(source);
            lemma_enabled_rows_in_range(*source);
        }
        let start = match self.core.active_index {
            Some(a) => a,
            None => {
                let f = if forward {
                    source.first_enabled()
                } else {
                    source.last_enabled()
                };
                match f {
                    Some(i) => i,
                    None => return None,
                }
            },
        };
        let steps = self.page_rows();
        let count = self.core.source_count;
        let last_row = if count == 0 {
            0
        } else {
            count - 1
        };
        let boundary = if forward {
            let far = if start > usize::MAX - steps {
                usize::MAX
            } else {
                start + steps
            };
            if far < last_row {
                far
            } else {
                last_row
            }
        } else {
            if start > steps {
                start - steps
            } else {
                0
            }
        };
        proof {
            assert(boundary == page_boundary(self.core, self.list, start, forward));
        }
        let mut target = start;
        loop
            invariant
                strictly_increasing(source.enabled_spec()),
                forward ==> target == start || (enabled_row(*source, target) && start < target <= boundary),
                !forward ==> target == start || (enabled_row(*source, target) && boundary <= target < start),
            ensures
                is_page_target(*source, start, boundary as int, forward, target),
            decreases if forward {
                usize::MAX - target
            } else {
                target as int
            },
        {
            let n = source.next_enabled(target, forward, false);
            proof {
                lemma_next_enabled_facts(source.enabled_spec(), target as int, forward);
                match n {
                    Some(next) => {
                        lemma_next_enabled_moves(*source, target, forward, next);
                    },
                    None => {},
                }
            }
            match n {
                Some(next) => {
                    if (forward && next > boundary) || (!forward && next < boundary) {
                        break;
                    }
                    target = next;
                },
                None => break,
            }
        }
        Some(target)
    }
}

/// The page step of a list: rows shown minus two, at least one.
pub open spec fn page_rows_of(list: VirtualListState) -> int {
    let r = list.metrics.visible_range;
    let shown = if r.start < r.end {
        r.end - r.start
    } else {
        0
    };
    if shown > 3 {
        shown - 2
    } else {
        1
    }
}

/// Where paging starts: the active option, else the first (forward) or last enabled one.
pub open spec fn page_start(c: SelectCore, s: OwnedSelectDataSource, forward: bool) -> Option<usize> {
    match c.active_index {
        Some(a) => Some(a),
        None => if forward {
            first_of(s)
        } else {
            last_of(s)
        },
    }
}

/// How far a page reaches from `start`: a page of rows down, at most to the last row, or
/// a page of rows up, at least to the first.
pub open spec fn page_boundary(c: SelectCore, list: VirtualListState, start: usize, forward: bool) -> int {
    let steps = page_rows_of(list);
    if forward {
        let far = if start + steps > usize::MAX {
            usize::MAX as int
        } else {
            start + steps
        };
        let last_row = if c.source_count == 0 {
            0
        } else {
            c.source_count - 1
        };
        if far < last_row {
            far
        } else {
            last_row
        }
    } else {
        if start > steps {
            start - steps
        } else {
            0
        }
    }
}

/// `t` is the farthest enabled option between `start` (excluded) and `boundary`
/// (included) in the paging direction, or `start` when there is none.
pub open spec fn is_page_target(s: OwnedSelectDataSource, start: usize, boundary: int, forward: bool, t: usize) -> bool {
    let v = s.enabled_spec();
    if forward {
        &&& (t == start || (enabled_row(s, t) && start < t <= boundary))
        &&& forall|j: int| 0 <= j < v.len() && start < #[trigger] v[j] <= boundary ==> v[j] <= t
    } else {
        &&& (t == start || (enabled_row(s, t) && boundary <= t < start))
        &&& forall|j: int| 0 <= j < v.len() && boundary <= #[trigger] v[j] < start ==> v[j] >= t
    }
}

/// What the next-enabled rule tells about the other enabled rows.
pub proof fn lemma_next_enabled_facts(v: Seq<usize>, x: int, forward: bool)
    requires
        strictly_increasing(v),
    ensures
        match next_enabled_of(v, x, forward, false) {
            None => forall|j: int| 0 <= j < v.len() ==> (forward ==> #[trigger] v[j] <= x) && (!forward ==> v[j] >= x),
            Some(n) => forall|j: int|
                0 <= j < v.len() ==> (forward && #[trigger] v[j] > x ==> v[j] >= n) && (!forward && v[j] < x ==> v[j] <= n),
        },
{
    if forward {
        if exists|k: int| #[trigger] first_after_at(v, x, k) {
            let k = choose|k: int| #[trigger] first_after_at(v, x, k);
            assert forall|j: int| 0 <= j < v.len() && #[trigger] v[j] > x implies v[j] >= v[k] by {
                if j < k {
                    assert(v[j] <= x);
                } else if j > k {
                    assert(v[k] < v[j]);
                }
            }
        } else {
            assert forall|j: int| 0 <= j < v.len() implies #[trigger] v[j] <= x by {
                if v[j] > x {
                    lemma_exists_first_after(v, x, j);
                }
            }
        }
    } else {
        if exists|k: int| #[trigger] last_before_at(v, x, k) {
            let k = choose|k: int| #[trigger] last_before_at(v, x, k);
            assert forall|j: int| 0 <= j < v.len() && #[trigger] v[j] < x implies v[j] <= v[k] by {
                if j > k {
                    assert(v[j] >= x);
                } else if j < k {
                    assert(v[j] < v[k]);
                }
            }
        } else {
            assert forall|j: int| 0 <= j < v.len() implies #[trigger] v[j] >= x by {
                if v[j] < x {
                    lemma_exists_last_before(v, x, j);
                }
            }
        }
    }
}

proof fn lemma_exists_first_after(v: Seq<usize>, x: int, k: int)
    requires
        strictly_increasing(v),
        0 <= k < v.len(),
        v[k] > x,
    ensures
        exists|j: int| #[trigger] first_after_at(v, x, j),
    decreases k,
{
    if k > 0 && v[k - 1] > x {
        lemma_exists_first_after(v, x, k - 1);
    } else {
        assert forall|k2: int| 0 <= k2 < k implies #[trigger] v[k2] <= x by {
            if k2 < k - 1 {
                assert(v[k2] < v[k - 1]);
            }
        }
        assert(first_after_at(v, x, k));
    }
}

proof fn lemma_exists_last_before(v: Seq<usize>, x: int, k: int)
    requires
        strictly_increasing(v),
        0 <= k < v.len(),
        v[k] < x,
    ensures
        exists|j: int| #[trigger] last_before_at(v, x, j),
    decreases v.len() - k,
{
    if k + 1 < v.len() && v[k + 1] < x {
        lemma_exists_last_before(v, x, k + 1);
    } else {
        assert forall|k2: int| k < k2 < v.len() implies #[trigger] v[k2] >= x by {
            if k2 > k + 1 {
                assert(v[k + 1] < v[k2]);
            }
        }
        assert(last_before_at(v, x, k));
    }
}

/// The row a movement goes to (before checking it against the active one).
pub open spec fn movement_target(c: SelectCore, list: VirtualListState, s: OwnedSelectDataSource, m: ActiveMovement) -> Option<usize> {
    match m {
        ActiveMovement::Previous => or_else(
            match c.active_index {
                Some(i) => next_enabled_of(s.enabled_spec(), i as int, false, false),
                None => None,
            },
            or_else(c.active_index, first_of(s)),
        ),
        ActiveMovement::Next => or_else(
            match c.active_index {
                Some(i) => next_enabled_of(s.enabled_spec(), i as int, true, false),
                None => None,
            },
            or_else(c.active_index, first_of(s)),
        ),
        ActiveMovement::First => first_of(s),
        ActiveMovement::Last => last_of(s),
        ActiveMovement::PagePrevious => choose|t: Option<usize>| page_target_result(c, list, s, false, t),
        ActiveMovement::PageNext => choose|t: Option<usize>| page_target_result(c, list, s, true, t),
    }
}

/// `t` is what `page_target` returns.
pub open spec fn page_target_result(c: SelectCore, list: VirtualListState, s: OwnedSelectDataSource, forward: bool, t: Option<usize>) -> bool {
    match page_start(c, s, forward) {
        None => t is None,
        Some(st) => t matches Some(x) && is_page_target(s, st, page_boundary(c, list, st, forward), forward, x),
    }
}

/// The page target is determined.
pub proof fn lemma_page_target_unique(c: SelectCore, list: VirtualListState, s: OwnedSelectDataSource, forward: bool, t1: Option<usize>, t2: Option<usize>)
    requires
        s.consistent(),
        page_target_result(c, list, s, forward, t1),
        page_target_result(c, list, s, forward, t2),
    ensures
        t1 == t2,
{
    lemma_enabled_rows_in_range(s);
    match page_start(c, s, forward) {
        None => {},
        Some(st) => {
            let a = t1.unwrap();
            let b = t2.unwrap();
            let v = s.enabled_spec();
            if a != st {
                let ka = choose|k: int| 0 <= k < v.len() && v[k] == a;
                assert(v[ka] == a);
            }
            if b != st {
                let kb = choose|k: int| 0 <= k < v.len() && v[k] == b;
                assert(v[kb] == b);
            }
        },
    }
}

impl SelectInteraction {
    /// Moves the active option with the keyboard. Returns whether the key was used: not
    /// while the options are not shown or none is enabled.
    pub fn move_active(&mut self, source: &OwnedSelectDataSource, movement: ActiveMovement) -> (used: bool)
        ensures
            !old(self).core.ready || source.enabled_spec().len() == 0 ==> !used && final(self).core
                == old(self).core && final(self).list == old(self).list,
            old(self).core.ready && source.enabled_spec().len() > 0 ==> {
                let t = movement_target(old(self).core, old(self).list, *source, movement);
                &&& used == t is Some
                &&& (t is None || t == old(self).core.active_index) ==> final(self).core == old(self).core
                    && final(self).list == old(self).list
                &&& (t is Some && t != old(self).core.active_index) ==> final(self).core == (SelectCore {
                    active_index: t,
                    active_key: key_of(*source, t),
                    preserve_active_on_open: true,
                    ..old(self).core
                }) && same_list_but_scroll(final(self).list, old(self).list)
                    && final(self).list.deferred_scroll == revealed_scroll(old(self).list, t)
            },
            final(self).typeahead_buffer == old(self).typeahead_buffer,
    {
        proof {
            use_type_invariant(source);
            lemma_enabled_rows_in_range(*source);
            lemma_first_last_enabled(*source);
        }
        if !self.core.ready || source.first_enabled().is_none() {
            return false;
        }
        let current = self.core.active_index;
        let stepped = match movement {
            ActiveMovement::Previous => match current {
                Some(i) => source.next_enabled(i, false, false),
                None => None,
            },
            ActiveMovement::Next => match current {
                Some(i) => source.next_enabled(i, true, false),
                None => None,
            },
            _ => None,
        };
        let next = match movement {
            ActiveMovement::Previous | ActiveMovement::Next => match stepped {
                Some(i) => Some(i),
                None => match current {
                    Some(i) => Some(i),
                    None => source.first_enabled(),
                },
            },
            ActiveMovement::First => source.first_enabled(),
            ActiveMovement::Last => source.last_enabled(),
            ActiveMovement::PagePrevious => {
                let r = self.page_target(source, false);
                proof {
                    let t = choose|t: Option<usize>| page_target_result(self.core, self.list, *source, false, t);
                    lemma_page_target_unique(self.core, self.list, *source, false, r, t);
                }
                r
            },
            ActiveMovement::PageNext => {
                let r = self.page_target(source, true);
                proof {
                    let t = choose|t: Option<usize>| page_target_result(self.core, self.list, *source, true, t);
                    lemma_page_target_unique(self.core, self.list, *source, true, r, t);
                }
                r
            },
        };
        let next = match next {
            Some(n) => n,
            None => return false,
        };
        if same_index(self.core.active_index, Some(next)) {
            return true;
        }
        proof {
            match movement {
                ActiveMovement::Previous | ActiveMovement::Next => {
                    match stepped {
                        Some(i) => {
                            lemma_next_enabled_moves(*source, current.unwrap(), movement is Next, i);
                        },
                        None => {},
                    }
                },
                _ => {},
            }
            assert(enabled_row(*source, next));
        }
        self.core.active_index = Some(next);
        self.core.active_key = Some(source.key(next));
        self.core.preserve_active_on_open = true;
        self.reveal_active();
        true
    }
}

/// The text of grapheme cluster `k` of `s`.
pub open spec fn grapheme_text(s: Seq<char>, k: int) -> Seq<char> {
    let g = grapheme_starts_of(s);
    let e = if k + 1 < g.len() {
        g[k + 1] as int
    } else {
        utf8_len(s) as int
    };
    s.subrange(byte_to_char(s, g[k] as int) as int, byte_to_char(s, e) as int)
}

/// Every grapheme cluster of `s` lower-cases to `input`.
pub open spec fn all_graphemes_lower_to(s: Seq<char>, input: Seq<char>) -> bool {
    forall|k: int| 0 <= k < grapheme_starts_of(s).len() ==> #[trigger] lowercase_of(grapheme_text(s, k)) == input
}

/// Whether every grapheme cluster of `s` lower-cases to `input`.
fn graphemes_all_lower_to(s: &str, input: &str) -> (r: bool)
    ensures
        r == all_graphemes_lower_to(s@, input@),
{
    let starts = grapheme_starts(s);
    let table = CharTable::new(s);
    let total = text_len(s);
    let ghost g = starts@;
    proof {
        lemma_table_len_fits(&table, s@);
    }
    let mut k: usize = 0;
    while k < starts.len()
        invariant
            g == starts@,
            g == grapheme_starts_of(s@),
            piece_starts_wf(s@, g),
            table.describes(s@),
            total == utf8_len(s@),
            k <= g.len(),
            forall|j: int| 0 <= j < k ==> #[trigger] lowercase_of(grapheme_text(s@, j)) == input@,
        decreases g.len() - k,
    {
        let a = starts[k];
        let e = if k + 1 < starts.len() {
            starts[k + 1]
        } else {
            total
        };
        proof {
            if k + 1 < g.len() {
                assert(g[k as int] < g[k + 1]);
            }
            lemma_byte_to_char_mono(s@, a as int, e as int);
            lemma_byte_to_char_bounds(s@, e as int);
        }
        let ca = char_index_of_byte(&table, a);
        let ce = char_index_of_byte(&table, e);
        let piece = table_substring(&table, ca, ce);
        let low = to_lowercase(piece.as_str());
        proof {
            assert(piece@ == grapheme_text(s@, k as int));
        }
        if !same_text(low.as_str(), input) {
            proof {
                assert(lowercase_of(grapheme_text(s@, k as int)) != input@);
            }
            return false;
        }
        k += 1;
    }
    true
}

/// Appends the characters of `s` to `out`.
fn append_str(out: &mut String, s: &str)
    ensures
        final(out)@ == old(out)@ + s@,
{
    let cs = crate::text::utf::chars_of(s);
    let mut i: usize = 0;
    while i < cs.len()
        invariant
            cs@ == s@,
            i <= cs@.len(),
            out@ == old(out)@ + cs@.take(i as int),
        decreases cs@.len() - i,
    {
        crate::text::utf::push_char(out, cs[i]);
        assert(cs@.take(i + 1) =~= cs@.take(i as int).push(cs@[i as int]));
        i += 1;
    }
    assert(cs@.take(cs@.len() as int) =~= cs@);
}

impl SelectInteraction {
    /// Hovering an enabled option makes it active.
    pub fn set_hovered(&mut self, source: &OwnedSelectDataSource, index: usize) -> (changed: bool)
        ensures
            changed == (old(self).core.ready && enabled_row(*source, index)
                && old(self).core.active_index != Some(index)),
            changed ==> final(self).core == (SelectCore {
                active_index: Some(index),
                active_key: Some(key_at(*source, index)),
                preserve_active_on_open: true,
                ..old(self).core
            }),
            !changed ==> final(self).core == old(self).core,
            final(self).list == old(self).list,
            final(self).typeahead_buffer == old(self).typeahead_buffer,
    {
        proof {
            use_type_invariant(source);
            lemma_enabled_rows_in_range(*source);
        }
        if !self.core.ready || !source.is_enabled(index) || same_index(self.core.active_index, Some(index)) {
            return false;
        }
        self.core.active_index = Some(index);
        self.core.active_key = Some(source.key(index));
        self.core.preserve_active_on_open = true;
        true
    }

    /// The active option, if it can be submitted (shown and enabled).
    pub fn submittable_active_index(&self, source: &OwnedSelectDataSource) -> (r: Option<usize>)
        ensures
            r == (match self.core.active_index {
                Some(a) => if self.core.ready && enabled_row(*source, a) {
                    Some(a)
                } else {
                    None
                },
                None => None,
            }),
    {
        match self.core.active_index {
            Some(a) => if self.core.ready && source.is_enabled(a) {
                Some(a)
            } else {
                None
            },
            None => None,
        }
    }

    /// Whether the row `index` can be submitted.
    pub fn can_submit(&self, source: &OwnedSelectDataSource, index: usize) -> (r: bool)
        ensures
            r == (self.core.ready && enabled_row(*source, index)),
    {
        self.core.ready && source.is_enabled(index)
    }

    /// Type-ahead: lower-cases the typed text and adds it to the typed characters (whose
    /// timeout restarts). Repeating one character cycles through the options starting
    /// with it; otherwise the whole typed text is searched. A match opens the popup and
    /// becomes active. Returns whether an option matched.
    pub fn typeahead(&mut self, source: &OwnedSelectDataSource, text: &str) -> (found: bool)
        ensures
            !old(self).core.ready || lowercase_of(text@).len() == 0 ==> !found && final(self).core
                == old(self).core && final(self).typeahead_buffer@ == old(self).typeahead_buffer@
                && final(self).list == old(self).list,
            old(self).core.ready && lowercase_of(text@).len() > 0 ==> {
                let input = lowercase_of(text@);
                let before = old(self).typeahead_buffer@;
                let repeating = before.len() > 0 && all_graphemes_lower_to(before, input);
                let query = if repeating {
                    input
                } else {
                    before + input
                };
                let timed = SelectCore {
                    typeahead_generation: next_generation(old(self).core.typeahead_generation),
                    typeahead_pending: true,
                    ..old(self).core
                };
                &&& final(self).typeahead_buffer@ == before + input
                &&& match search_prefix_of(
                    source.entries_spec(),
                    source.enabled_spec(),
                    query,
                    old(self).core.active_index,
                ) {
                    None => !found && final(self).core == timed && final(self).list == old(self).list,
                    Some(n) => found && final(self).core == (SelectCore {
                        open: true,
                        active_index: Some(n),
                        active_key: Some(key_at(*source, n)),
                        preserve_active_on_open: true,
                        ..timed
                    }) && same_list_but_scroll(final(self).list, old(self).list)
                        && final(self).list.deferred_scroll == revealed_scroll(old(self).list, Some(n)),
                }
            },
    {
        proof {
            use_type_invariant(source);
            lemma_enabled_rows_in_range(*source);
        }
        if !self.core.ready {
            return false;
        }
        let input = to_lowercase(text);
        if crate::text::utf::chars_of(input.as_str()).len() == 0 {
            return false;
        }
        let repeating = crate::text::utf::chars_of(self.typeahead_buffer.as_str()).len() > 0
            && graphemes_all_lower_to(self.typeahead_buffer.as_str(), input.as_str());
        append_str(&mut self.typeahead_buffer, input.as_str());
        self.core.typeahead_generation = bump(self.core.typeahead_generation);
        self.core.typeahead_pending = true;
        let next = if repeating {
            source.search_prefix(input.as_str(), self.core.active_index)
        } else {
            source.search_prefix(self.typeahead_buffer.as_str(), self.core.active_index)
        };
        let next = match next {
            Some(n) => n,
            None => return false,
        };
        self.core.open = true;
        self.core.active_index = Some(next);
        self.core.active_key = Some(source.key(next));
        self.core.preserve_active_on_open = true;
        self.reveal_active();
        true
    }
}

/// Two optional rows are the same.
pub fn same_index(a: Option<usize>, b: Option<usize>) -> (r: bool)
    ensures
        r == (a == b),
{
    match (a, b) {
        (Some(x), Some(y)) => x == y,
        (None, None) => true,
        _ => false,
    }
}

/// The enabled rows of a source are rows of it.
pub proof fn lemma_enabled_rows_in_range(s: OwnedSelectDataSource)
    requires
        s.consistent(),
    ensures
        forall|i: usize| #[trigger] s.enabled_spec().contains(i) ==> i < s.entries_spec().len(),
        strictly_increasing(s.enabled_spec()),
{
    s.lemma_consistent();
    assert forall|i: usize| #[trigger] s.enabled_spec().contains(i) implies i < s.entries_spec().len() by {
        let k = choose|k: int| 0 <= k < s.enabled_spec().len() && s.enabled_spec()[k] == i;
        assert(s.enabled_spec()[k] < s.entries_spec().len());
    }
}

/// The first and last enabled rows are enabled.
pub proof fn lemma_first_last_enabled(s: OwnedSelectDataSource)
    ensures
        first_of(s) matches Some(i) ==> enabled_row(s, i),
        last_of(s) matches Some(i) ==> enabled_row(s, i),
        first_of(s) is None <==> s.enabled_spec().len() == 0,
{
    let v = s.enabled_spec();
    if v.len() > 0 {
        assert(v[0] == v[0]);
        assert(v.contains(v[0]));
        assert(v[v.len() - 1] == v.last());
        assert(v.contains(v[v.len() - 1]));
    }
}

/// The next enabled row is enabled and lies in the walked direction.
pub proof fn lemma_next_enabled_moves(s: OwnedSelectDataSource, x: usize, forward: bool, next: usize)
    requires
        next_enabled_of(s.enabled_spec(), x as int, forward, false) == Some(next),
    ensures
        enabled_row(s, next),
        forward ==> next > x,
        !forward ==> next < x,
{
    let v = s.enabled_spec();
    if forward {
        let k = choose|k: int| #[trigger] first_after_at(v, x as int, k);
        assert(v[k] == next);
        assert(v.contains(v[k]));
    } else {
        let k = choose|k: int| #[trigger] last_before_at(v, x as int, k);
        assert(v[k] == next);
        assert(v.contains(v[k]));
    }
}

/// What a search of the first row with an id answers is that row.
proof fn lemma_key_index_of(s: OwnedSelectDataSource, key: u64, found: Option<usize>)
    requires
        match found {
            Some(i) => i < s.entries_spec().len() && entry_id(s.entries_spec()[i as int]) == key
                && forall|j: int| 0 <= j < i ==> entry_id(#[trigger] s.entries_spec()[j]) != key,
            None => forall|j: int|
                0 <= j < s.entries_spec().len() ==> entry_id(#[trigger] s.entries_spec()[j]) != key,
        },
    ensures
        found == key_index_of(s, key),
{
    match found {
        Some(i) => {
            assert(is_first_key_at(s, key, i as int));
            let c = choose|c: int| #[trigger] is_first_key_at(s, key, c);
            assert(is_first_key_at(s, key, c));
            if c < i {
                assert(entry_id(s.entries_spec()[c]) != key);
            } else if c > i {
                assert(entry_id(s.entries_spec()[i as int]) != key);
            }
        },
        None => {
            if exists|i: int| #[trigger] is_first_key_at(s, key, i) {
                let c = choose|c: int| #[trigger] is_first_key_at(s, key, c);
                assert(entry_id(s.entries_spec()[c]) == key);
            }
        },
    }
}

/// Where a lost active option goes is an enabled row, if anywhere.
pub proof fn lemma_reconciled_active_enabled(s: OwnedSelectDataSource, previous: Option<usize>)
    ensures
        reconciled_active_of(s, previous) matches Some(i) ==> enabled_row(s, i),
        previous is Some && s.enabled_spec().len() > 0 ==> reconciled_active_of(s, previous) is Some,
{
    lemma_first_last_enabled(s);
    match previous {
        Some(p) => {
            let v = s.enabled_spec();
            let from = if p == 0 {
                0
            } else {
                p - 1
            };
            let back = if p == usize::MAX {
                p as int
            } else {
                p + 1
            };
            match next_enabled_of(v, from, true, false) {
                Some(i) => {
                    lemma_next_enabled_moves(s, from as usize, true, i);
                },
                None => {
                    match next_enabled_of(v, back, false, false) {
                        Some(i) => {
                            if back <= usize::MAX {
                                lemma_next_enabled_moves(s, back as usize, false, i);
                            }
                        },
                        None => {},
                    }
                },
            }
        },
        None => {},
    }
}

/// Previous and Next step the active option to the nearest enabled option before or
/// after it; with none there, the active option stays. Without an active option both go
/// to the first enabled option. First and Last go to the smallest and the largest
/// enabled row.
pub proof fn lemma_step_movements(c: SelectCore, list: VirtualListState, s: OwnedSelectDataSource)
    requires
        strictly_increasing(s.enabled_spec()),
    ensures
        ({
            let v = s.enabled_spec();
            let prev = movement_target(c, list, s, ActiveMovement::Previous);
            let next = movement_target(c, list, s, ActiveMovement::Next);
            &&& c.active_index matches Some(i) ==> {
                &&& (exists|k: int| 0 <= k < v.len() && #[trigger] v[k] < i) ==> (prev matches Some(t)
                    && v.contains(t) && t < i && forall|k: int| 0 <= k < v.len() && #[trigger] v[k] < i ==> v[k] <= t)
                &&& (forall|k: int| 0 <= k < v.len() ==> #[trigger] v[k] >= i) ==> prev == Some(i)
                &&& (exists|k: int| 0 <= k < v.len() && #[trigger] v[k] > i) ==> (next matches Some(t)
                    && v.contains(t) && t > i && forall|k: int| 0 <= k < v.len() && #[trigger] v[k] > i ==> v[k] >= t)
                &&& (forall|k: int| 0 <= k < v.len() ==> #[trigger] v[k] <= i) ==> next == Some(i)
            }
            &&& c.active_index is None && v.len() > 0 ==> prev == Some(v[0]) && next == Some(v[0])
            &&& v.len() > 0 ==> (movement_target(c, list, s, ActiveMovement::First) matches Some(t)
                && v.contains(t) && forall|k: int| 0 <= k < v.len() ==> t <= #[trigger] v[k])
            &&& v.len() > 0 ==> (movement_target(c, list, s, ActiveMovement::Last) matches Some(t)
                && v.contains(t) && forall|k: int| 0 <= k < v.len() ==> t >= #[trigger] v[k])
            &&& v.len() == 0 ==> movement_target(c, list, s, ActiveMovement::First) is None
                && movement_target(c, list, s, ActiveMovement::Last) is None
        }),
{
    let v = s.enabled_spec();
    if v.len() > 0 {
        assert(v.contains(v[0]));
        assert(v.contains(v.last()));
        assert forall|k: int| 0 <= k < v.len() implies v[0] <= #[trigger] v[k] && v.last() >= v[k] by {
            if k > 0 {
                assert(v[0] < v[k]);
            }
            if k < v.len() - 1 {
                assert(v[k] < v[v.len() - 1]);
            }
        }
    }
    match c.active_index {
        Some(i) => {
            if exists|k: int| 0 <= k < v.len() && #[trigger] v[k] < i {
                let k = choose|k: int| 0 <= k < v.len() && #[trigger] v[k] < i;
                lemma_exists_last_before(v, i as int, k);
                let k0 = choose|k: int| #[trigger] last_before_at(v, i as int, k);
                assert(v.contains(v[k0]));
                assert forall|k: int| 0 <= k < v.len() && #[trigger] v[k] < i implies v[k] <= v[k0] by {
                    if k > k0 {
                        assert(v[k] >= i);
                    } else if k < k0 {
                        assert(v[k] < v[k0]);
                    }
                }
            } else {
                assert(!exists|k: int| #[trigger] last_before_at(v, i as int, k));
            }
            if exists|k: int| 0 <= k < v.len() && #[trigger] v[k] > i {
                let k = choose|k: int| 0 <= k < v.len() && #[trigger] v[k] > i;
                lemma_exists_first_after(v, i as int, k);
                let k0 = choose|k: int| #[trigger] first_after_at(v, i as int, k);
                assert(v.contains(v[k0]));
                assert forall|k: int| 0 <= k < v.len() && #[trigger] v[k] > i implies v[k] >= v[k0] by {
                    if k < k0 {
                        assert(v[k] <= i);
                    } else if k > k0 {
                        assert(v[k0] < v[k]);
                    }
                }
            } else {
                assert(!exists|k: int| #[trigger] first_after_at(v, i as int, k));
            }
        },
        None => {},
    }
}

} // verus!
