//! The bookkeeping of a fixed-row-height virtual list: its item count and revision, the
//! statistics of what it materialised, and the scroll requests it defers to the next
//! frame. Scroll offsets in pixels are the host's.
use std::ops::Range;
use vstd::prelude::*;

use crate::scrollbar::{ScrollAxis, ScrollbarConfig};
use crate::text::utf::same_text;

verus! {

/// Bounded statistics of what a virtual list materialised.
#[derive(Debug)]
pub struct VirtualListMetrics {
    /// Index range of the rows the last frame asked for.
    pub visible_range: Range<usize>,
    /// Number of rows the last frame materialised.
    pub materialized_rows: usize,
    /// Rows rendered since the state was created or its statistics reset (saturating).
    pub renderer_calls: u64,
    /// Largest number of rows materialised in one frame.
    pub max_materialized_rows: usize,
    /// Rows cached by the list; none in the fixed-memory mode.
    pub cached_rows: usize,
    /// Upper bound of cached rows; zero in the fixed-memory mode.
    pub max_cached_rows: usize,
}

/// Statistics with nothing recorded.
pub open spec fn empty_metrics(m: VirtualListMetrics) -> bool {
    &&& m.visible_range.start == 0
    &&& m.visible_range.end == 0
    &&& m.materialized_rows == 0
    &&& m.renderer_calls == 0
    &&& m.max_materialized_rows == 0
    &&& m.cached_rows == 0
    &&& m.max_cached_rows == 0
}

impl Default for VirtualListMetrics {
    fn default() -> (r: Self)
        ensures
            empty_metrics(r),
    {
        VirtualListMetrics {
            visible_range: Range { start: 0, end: 0 },
            materialized_rows: 0,
            renderer_calls: 0,
            max_materialized_rows: 0,
            cached_rows: 0,
            max_cached_rows: 0,
        }
    }
}

/// How a deferred scroll places its row.
#[derive(Clone, Copy, Debug, PartialEq, Eq, Structural)]
pub enum ScrollStrategy {
    /// The row at the top of the viewport.
    Top,
    /// The row in the middle of the viewport.
    Center,
    /// The row at the bottom of the viewport.
    Bottom,
    /// Only as far as needed to bring the row into view.
    Nearest,
}

/// A scroll request carried out at the next frame.
#[derive(Clone, Copy, Debug, PartialEq, Eq, Structural)]
pub struct DeferredScroll {
    /// The row to scroll to.
    pub item_index: usize,
    /// Where the row goes.
    pub strategy: ScrollStrategy,
    /// Scroll even if the row is already in view.
    pub strict: bool,
}

/// The integer state of a virtual list.
#[derive(Debug)]
pub struct VirtualListState {
    /// Number of items.
    pub item_count: usize,
    /// Data revision.
    pub revision: u64,
    /// Statistics.
    pub metrics: VirtualListMetrics,
    /// The scroll request of the next frame.
    pub deferred_scroll: Option<DeferredScroll>,
}

/// `a + b`, saturating at the top of the range of `u64`.
pub open spec fn saturating_sum(a: u64, b: int) -> u64 {
    if a + b > u64::MAX {
        u64::MAX
    } else {
        (a + b) as u64
    }
}

impl VirtualListState {
    /// An empty list at its start.
    pub fn new() -> (r: VirtualListState)
        ensures
            r.item_count == 0,
            r.revision == 0,
            empty_metrics(r.metrics),
            r.deferred_scroll is None,
    {
        VirtualListState {
            item_count: 0,
            revision: 0,
            metrics: VirtualListMetrics::default(),
            deferred_scroll: None,
        }
    }

    /// Resets the item count and revision and clears the statistics; an empty list also
    /// forgets its scroll request (the host then scrolls back to the start).
    pub fn reset(&mut self, item_count: usize, revision: u64)
        ensures
            final(self).item_count == item_count,
            final(self).revision == revision,
            empty_metrics(final(self).metrics),
            final(self).deferred_scroll == (if item_count == 0 {
                None
            } else {
                old(self).deferred_scroll
            }),
    {
        self.item_count = item_count;
        self.revision = revision;
        self.metrics = VirtualListMetrics::default();
        if item_count == 0 {
            self.deferred_scroll = None;
        }
    }

    /// `index` clamped to the last item; `None` for an empty list.
    pub fn clamped_index(&self, index: usize) -> (r: Option<usize>)
        ensures
            r == (if self.item_count == 0 {
                None
            } else if index < self.item_count {
                Some(index)
            } else {
                Some((self.item_count - 1) as usize)
            }),
    {
        if self.item_count == 0 {
            None
        } else if index < self.item_count {
            Some(index)
        } else {
            Some(self.item_count - 1)
        }
    }

    fn defer_scroll(&mut self, item_index: usize, strategy: ScrollStrategy, strict: bool)
        ensures
            final(self).deferred_scroll == Some(DeferredScroll { item_index, strategy, strict }),
            final(self).item_count == old(self).item_count,
            final(self).revision == old(self).revision,
            final(self).metrics == old(self).metrics,
    {
        self.deferred_scroll = Some(DeferredScroll { item_index, strategy, strict });
    }

    /// Puts row `index` (clamped) at the top of the viewport at the next frame.
    pub fn scroll_to_index(&mut self, index: usize)
        ensures
            final(self).item_count == old(self).item_count,
            final(self).revision == old(self).revision,
            final(self).metrics == old(self).metrics,
            final(self).deferred_scroll == (match old(self).clamped_index_spec(index) {
                Some(i) => Some(DeferredScroll { item_index: i, strategy: ScrollStrategy::Top, strict: true }),
                None => old(self).deferred_scroll,
            }),
    {
        match self.clamped_index(index) {
            Some(i) => self.defer_scroll(i, ScrollStrategy::Top, true),
            None => {},
        }
    }

    /// Brings row `index` (clamped) into view at the next frame, if it is not.
    pub fn reveal_index(&mut self, index: usize)
        ensures
            final(self).item_count == old(self).item_count,
            final(self).revision == old(self).revision,
            final(self).metrics == old(self).metrics,
            final(self).deferred_scroll == (match old(self).clamped_index_spec(index) {
                Some(i) => Some(DeferredScroll { item_index: i, strategy: ScrollStrategy::Nearest, strict: false }),
                None => old(self).deferred_scroll,
            }),
    {
        match self.clamped_index(index) {
            Some(i) => self.defer_scroll(i, ScrollStrategy::Nearest, false),
            None => {},
        }
    }

    /// Scrolls to the first row.
    pub fn scroll_to_start(&mut self)
        ensures
            final(self).item_count == old(self).item_count,
            final(self).revision == old(self).revision,
            final(self).metrics == old(self).metrics,
            final(self).deferred_scroll == (if old(self).item_count == 0 {
                old(self).deferred_scroll
            } else {
                Some(DeferredScroll { item_index: 0, strategy: ScrollStrategy::Top, strict: true })
            }),
    {
        self.scroll_to_index(0);
    }

    /// Scrolls to the middle row.
    pub fn scroll_to_middle(&mut self)
        ensures
            final(self).item_count == old(self).item_count,
            final(self).revision == old(self).revision,
            final(self).metrics == old(self).metrics,
            final(self).deferred_scroll == (if old(self).item_count == 0 {
                old(self).deferred_scroll
            } else {
                Some(
                    DeferredScroll {
                        item_index: (old(self).item_count / 2) as usize,
                        strategy: ScrollStrategy::Top,
                        strict: true,
                    },
                )
            }),
    {
        let count = self.item_count;
        if count > 0 {
            self.scroll_to_index(count / 2);
        }
    }

    /// Puts the last row at the bottom of the viewport.
    pub fn scroll_to_end(&mut self)
        ensures
            final(self).item_count == old(self).item_count,
            final(self).revision == old(self).revision,
            final(self).metrics == old(self).metrics,
            final(self).deferred_scroll == (if old(self).item_count == 0 {
                old(self).deferred_scroll
            } else {
                Some(
                    DeferredScroll {
                        item_index: (old(self).item_count - 1) as usize,
                        strategy: ScrollStrategy::Bottom,
                        strict: true,
                    },
                )
            }),
    {
        let count = self.item_count;
        if count > 0 {
            self.defer_scroll(count - 1, ScrollStrategy::Bottom, true);
        }
    }

    /// `index` clamped to the last item; `None` for an empty list.
    pub open spec fn clamped_index_spec(&self, index: usize) -> Option<usize> {
        if self.item_count == 0 {
            None
        } else if index < self.item_count {
            Some(index)
        } else {
            Some((self.item_count - 1) as usize)
        }
    }

    /// Takes the scroll request of this frame.
    pub fn take_deferred_scroll(&mut self) -> (r: Option<DeferredScroll>)
        ensures
            r == old(self).deferred_scroll,
            final(self).deferred_scroll is None,
            final(self).item_count == old(self).item_count,
            final(self).revision == old(self).revision,
            final(self).metrics == old(self).metrics,
    {
        let r = self.deferred_scroll;
        self.deferred_scroll = None;
        r
    }

    /// A copy of the statistics.
    pub fn metrics(&self) -> (r: VirtualListMetrics)
        ensures
            r == self.metrics,
    {
        VirtualListMetrics {
            visible_range: Range {
                start: self.metrics.visible_range.start,
                end: self.metrics.visible_range.end,
            },
            materialized_rows: self.metrics.materialized_rows,
            renderer_calls: self.metrics.renderer_calls,
            max_materialized_rows: self.metrics.max_materialized_rows,
            cached_rows: self.metrics.cached_rows,
            max_cached_rows: self.metrics.max_cached_rows,
        }
    }

    /// The index range the last frame asked for.
    pub fn visible_range(&self) -> (r: Range<usize>)
        ensures
            r == self.metrics.visible_range,
    {
        Range { start: self.metrics.visible_range.start, end: self.metrics.visible_range.end }
    }

    /// Adopts a new item count and revision; a change forgets the last frame's range.
    pub fn reconcile(&mut self, item_count: usize, revision: u64)
        ensures
            old(self).item_count == item_count && old(self).revision == revision ==> {
                &&& final(self).item_count == old(self).item_count
                &&& final(self).revision == old(self).revision
                &&& final(self).metrics == old(self).metrics
                &&& final(self).deferred_scroll == old(self).deferred_scroll
            },
            !(old(self).item_count == item_count && old(self).revision == revision) ==> {
                &&& final(self).item_count == item_count
                &&& final(self).revision == revision
                &&& final(self).metrics.visible_range.start == 0
                &&& final(self).metrics.visible_range.end == 0
                &&& final(self).metrics.materialized_rows == 0
                &&& final(self).metrics.renderer_calls == old(self).metrics.renderer_calls
                &&& final(self).metrics.max_materialized_rows
                    == old(self).metrics.max_materialized_rows
                &&& final(self).metrics.cached_rows == old(self).metrics.cached_rows
                &&& final(self).metrics.max_cached_rows == old(self).metrics.max_cached_rows
                &&& final(self).deferred_scroll == old(self).deferred_scroll
            },
    {
        if self.item_count != item_count || self.revision != revision {
            self.item_count = item_count;
            self.revision = revision;
            self.metrics.visible_range = Range { start: 0, end: 0 };
            self.metrics.materialized_rows = 0;
        }
    }

    /// Records that a frame rendered the rows of `range`.
    pub fn record_render(&mut self, range: Range<usize>)
        ensures
            final(self).metrics == rendered_metrics(old(self).metrics, range),
            final(self).item_count == old(self).item_count,
            final(self).revision == old(self).revision,
            final(self).deferred_scroll == old(self).deferred_scroll,
    {
        let n: usize = if range.start < range.end {
            range.end - range.start
        } else {
            0
        };
        let calls = self.metrics.renderer_calls;
        let n64 = n as u64;
        self.metrics.renderer_calls = if calls > u64::MAX - n64 {
            u64::MAX
        } else {
            calls + n64
        };
        if n > self.metrics.max_materialized_rows {
            self.metrics.max_materialized_rows = n;
        }
        self.metrics.materialized_rows = n;
        self.metrics.visible_range = range;
    }
}

/// The scrollbar configuration of a virtual list: it only scrolls vertically, whatever
/// axis the configuration names.
pub fn list_scrollbar(config: ScrollbarConfig) -> (r: ScrollbarConfig)
    ensures
        r == (ScrollbarConfig { axis: ScrollAxis::Vertical, ..config }),
{
    ScrollbarConfig { axis: ScrollAxis::Vertical, ..config }
}

/// The statistics after rendering the rows of `range`: the range and its row count
/// (none for an empty or reversed range) are recorded, the renderer-call count grows by
/// that many (saturating) and the high-water mark follows.
pub open spec fn rendered_metrics(m: VirtualListMetrics, range: Range<usize>) -> VirtualListMetrics {
    let n = if range.start < range.end {
        range.end - range.start
    } else {
        0
    };
    VirtualListMetrics {
        visible_range: range,
        materialized_rows: n as usize,
        renderer_calls: saturating_sum(m.renderer_calls, n),
        max_materialized_rows: if n > m.max_materialized_rows {
            n as usize
        } else {
            m.max_materialized_rows
        },
        cached_rows: m.cached_rows,
        max_cached_rows: m.max_cached_rows,
    }
}

/// Rendering never lowers the statistics: the renderer-call count and the high-water mark
/// only grow, and the mark is at least the rows just rendered.
pub proof fn lemma_record_render_monotone(m: VirtualListMetrics, range: Range<usize>)
    ensures
        rendered_metrics(m, range).renderer_calls >= m.renderer_calls,
        rendered_metrics(m, range).max_materialized_rows >= m.max_materialized_rows,
        rendered_metrics(m, range).max_materialized_rows >= rendered_metrics(
            m,
            range,
        ).materialized_rows,
{
}

/// A scrolling key of a virtual list.
#[derive(Clone, Copy, Debug, PartialEq, Eq, Structural)]
pub enum ScrollKey {
    /// One keyboard step up.
    StepUp,
    /// One keyboard step down.
    StepDown,
    /// Nine tenths of the viewport up.
    PageUp,
    /// Nine tenths of the viewport down.
    PageDown,
    /// To the top.
    Home,
    /// To the bottom.
    End,
}

/// The scrolling key named `key`, if it is one.
pub open spec fn scroll_key_of(key: Seq<char>) -> Option<ScrollKey> {
    if key == "up"@ {
        Some(ScrollKey::StepUp)
    } else if key == "down"@ {
        Some(ScrollKey::StepDown)
    } else if key == "pageup"@ {
        Some(ScrollKey::PageUp)
    } else if key == "pagedown"@ {
        Some(ScrollKey::PageDown)
    } else if key == "home"@ {
        Some(ScrollKey::Home)
    } else if key == "end"@ {
        Some(ScrollKey::End)
    } else {
        None
    }
}

/// What a key pressed on a virtual list does: with any modifier held nothing; otherwise
/// the arrow, page, home and end keys scroll.
pub fn list_scroll_key(key: &str, no_modifiers: bool) -> (r: Option<ScrollKey>)
    ensures
        r == (if no_modifiers {
            scroll_key_of(key@)
        } else {
            None
        }),
{
    if !no_modifiers {
        None
    } else if same_text(key, "up") {
        Some(ScrollKey::StepUp)
    } else if same_text(key, "down") {
        Some(ScrollKey::StepDown)
    } else if same_text(key, "pageup") {
        Some(ScrollKey::PageUp)
    } else if same_text(key, "pagedown") {
        Some(ScrollKey::PageDown)
    } else if same_text(key, "home") {
        Some(ScrollKey::Home)
    } else if same_text(key, "end") {
        Some(ScrollKey::End)
    } else {
        None
    }
}

} // verus!
