//! The editing state of a single-line input: value, selection, IME composition and
//! undo/redo history.
//!
//! Each operation returns what the host must do next: whether the value changed (the
//! host then publishes a change event) and whether the view must be redrawn.
use std::ops::Range;
use vstd::prelude::*;

use crate::text::boundary::{
    range_from_utf16, range_to_utf16,
    is_first_above, is_first_word_end_above, is_grapheme_boundary, is_last_below,
    is_nearest_grapheme_boundary, lemma_boundary_is_nearest, lemma_nearest_unique,
    is_last_word_start_below, is_word_range_at, nearest_grapheme_boundary,
    nearest_grapheme_boundary_of, next_grapheme_boundary, next_word_boundary, normalize_selection,
    normalized_selection_of, previous_grapheme_boundary, previous_word_boundary, word_range_at,
};
use crate::text::segment::grapheme_starts_of;
use crate::text::edit::{
    is_single_line, lemma_single_line_concat, lemma_single_line_is_single_line,
    lemma_single_line_subrange, normalize_single_line, replace_text, single_line,
};
use crate::text::utf::{
    byte_to_char, is_char_boundary, lemma_boundary_le_len, lemma_boundary_prefix,
    lemma_byte_to_char_of_char_to_byte, lemma_concat_boundary, lemma_concat_char_to_byte,
    lemma_utf8_len_append, text_len, utf8_len, CharTable, char_index_of_byte, table_substring,
    lemma_byte_to_char_mono, utf16_len, utf16_offset_to_utf8, utf8_offset_to_utf16,
    utf8_to_utf16,
};

verus! {

/// Most entries that the undo and the redo history each keep.
pub const MAX_HISTORY_ENTRIES: usize = 100;

/// A saved value with its selection.
pub struct EditSnapshot {
    /// The value.
    pub value: String,
    /// The selection, as UTF-8 offsets.
    pub selection: Range<usize>,
    /// Whether the caret is at the selection start.
    pub selection_reversed: bool,
}

/// What a snapshot holds.
pub struct SnapshotModel {
    pub value: Seq<char>,
    pub start: int,
    pub end: int,
    pub reversed: bool,
}

impl EditSnapshot {
    pub open spec fn model(&self) -> SnapshotModel {
        SnapshotModel {
            value: self.value@,
            start: self.selection.start as int,
            end: self.selection.end as int,
            reversed: self.selection_reversed,
        }
    }
}

/// What an editor holds.
pub struct EditorModel {
    pub value: Seq<char>,
    pub start: int,
    pub end: int,
    pub reversed: bool,
    pub marked: Option<(int, int)>,
    pub composition: Option<SnapshotModel>,
    pub undo: Seq<SnapshotModel>,
    pub redo: Seq<SnapshotModel>,
    pub disabled: bool,
    pub read_only: bool,
    pub password_hidden: bool,
    /// A pointer drag is selecting text: pointer moves extend the selection.
    pub selecting: bool,
}

/// A snapshot's value is single-line and its selection lies on character boundaries.
pub open spec fn snapshot_wf(s: SnapshotModel) -> bool {
    &&& is_single_line(s.value)
    &&& s.start <= s.end
    &&& is_char_boundary(s.value, s.start)
    &&& is_char_boundary(s.value, s.end)
}

/// The editor invariant: a single-line value, a selection and a marked range on its
/// character boundaries, and bounded histories of well-formed snapshots.
pub open spec fn model_wf(m: EditorModel) -> bool {
    &&& is_single_line(m.value)
    &&& m.start <= m.end
    &&& is_char_boundary(m.value, m.start)
    &&& is_char_boundary(m.value, m.end)
    &&& (m.marked matches Some(r) ==> r.0 <= r.1 && is_char_boundary(m.value, r.0)
        && is_char_boundary(m.value, r.1))
    &&& (m.composition matches Some(c) ==> snapshot_wf(c))
    &&& m.undo.len() <= MAX_HISTORY_ENTRIES
    &&& m.redo.len() <= MAX_HISTORY_ENTRIES
    &&& forall|i: int| 0 <= i < m.undo.len() ==> snapshot_wf(#[trigger] m.undo[i])
    &&& forall|i: int| 0 <= i < m.redo.len() ==> snapshot_wf(#[trigger] m.redo[i])
}

/// The current value and selection as a snapshot.
pub open spec fn snapshot_of(m: EditorModel) -> SnapshotModel {
    SnapshotModel { value: m.value, start: m.start, end: m.end, reversed: m.reversed }
}

/// `h` with `s` pushed, dropping the oldest entry when the history is full.
pub open spec fn push_bounded(h: Seq<SnapshotModel>, s: SnapshotModel) -> Seq<SnapshotModel> {
    if h.len() >= MAX_HISTORY_ENTRIES {
        h.drop_first().push(s)
    } else {
        h.push(s)
    }
}

/// The editor may change its value.
pub open spec fn model_can_edit(m: EditorModel) -> bool {
    !m.disabled && !m.read_only
}

/// The editor holding `value` with the caret at its end, no history and no pointer drag.
pub open spec fn fresh_model(
    value: Seq<char>,
    disabled: bool,
    read_only: bool,
    password_hidden: bool,
) -> EditorModel {
    EditorModel {
        value,
        start: utf8_len(value) as int,
        end: utf8_len(value) as int,
        reversed: false,
        marked: None,
        composition: None,
        undo: Seq::empty(),
        redo: Seq::empty(),
        disabled,
        read_only,
        password_hidden,
        selecting: false,
    }
}

/// The state after programmatically setting the value `v` (already normalized): the
/// caret goes to the end of `v` and any composition ends. When the value changes, the
/// state before it (or before the composition) is kept for undo and redo is cleared;
/// when it stays the same, both histories stay as they were.
pub open spec fn set_value_post(m: EditorModel, v: Seq<char>) -> EditorModel {
    let before = match m.composition {
        Some(c) => c,
        None => snapshot_of(m),
    };
    EditorModel {
        value: v,
        start: utf8_len(v) as int,
        end: utf8_len(v) as int,
        reversed: false,
        marked: None,
        composition: None,
        undo: if v != m.value {
            push_bounded(m.undo, before)
        } else {
            m.undo
        },
        redo: if v != m.value {
            Seq::empty()
        } else {
            m.redo
        },
        ..m
    }
}

/// The state after restoring snapshot `s`.
pub open spec fn apply_snapshot_post(m: EditorModel, s: SnapshotModel) -> EditorModel {
    let sel = normalized_selection_of(s.value, (s.start as usize)..(s.end as usize));
    EditorModel {
        value: s.value,
        start: sel.0,
        end: sel.1,
        reversed: s.reversed && sel.0 != sel.1,
        marked: None,
        composition: None,
        ..m
    }
}

/// The state after undo: the last undo entry is restored and the current state is saved
/// for redo.
pub open spec fn undo_post(m: EditorModel) -> EditorModel {
    if !model_can_edit(m) || m.undo.len() == 0 {
        m
    } else {
        let restored = apply_snapshot_post(m, m.undo.last());
        EditorModel {
            undo: m.undo.drop_last(),
            redo: push_bounded(m.redo, snapshot_of(m)),
            ..restored
        }
    }
}

/// The state after redo: the last redo entry is restored and the current state is saved
/// for undo.
pub open spec fn redo_post(m: EditorModel) -> EditorModel {
    if !model_can_edit(m) || m.redo.len() == 0 {
        m
    } else {
        let restored = apply_snapshot_post(m, m.redo.last());
        EditorModel {
            redo: m.redo.drop_last(),
            undo: push_bounded(m.undo, snapshot_of(m)),
            ..restored
        }
    }
}

/// Offset of the caret: the selection start when reversed, otherwise its end.
pub open spec fn cursor_of(m: EditorModel) -> int {
    if m.reversed {
        m.start
    } else {
        m.end
    }
}

/// Offset of the selection anchor: the end opposite to the caret.
pub open spec fn anchor_of(m: EditorModel) -> int {
    if m.reversed {
        m.end
    } else {
        m.start
    }
}

/// The state after moving the caret to the boundary nearest to `offset`.
pub open spec fn move_to_post(m: EditorModel, offset: int) -> EditorModel {
    let o = nearest_grapheme_boundary_of(m.value, offset);
    EditorModel { start: o, end: o, reversed: false, ..m }
}

/// The state after extending the selection from its anchor to the boundary nearest to `offset`.
pub open spec fn select_to_post(m: EditorModel, offset: int) -> EditorModel {
    let o = nearest_grapheme_boundary_of(m.value, offset);
    let a = anchor_of(m);
    if o < a {
        EditorModel { start: o, end: a, reversed: true, ..m }
    } else {
        EditorModel { start: a, end: o, reversed: false, ..m }
    }
}

/// The value after replacing the byte range `(r.0, r.1)` of `v` by `t`.
pub open spec fn spliced(v: Seq<char>, r: (int, int), t: Seq<char>) -> Seq<char> {
    v.take(byte_to_char(v, r.0) as int) + t + v.skip(byte_to_char(v, r.1) as int)
}

/// The state after the user replaces `range` by `text`, with whether the value changed.
/// The range is first moved to grapheme boundaries and the text made single-line; the caret
/// ends after the inserted text and the previous state is kept for undo.
pub open spec fn replace_post(m: EditorModel, range: Range<usize>, text: Seq<char>) -> (
    EditorModel,
    bool,
) {
    if !model_can_edit(m) {
        (m, false)
    } else {
        let r = normalized_selection_of(m.value, range);
        let t = single_line(text);
        let next = spliced(m.value, r, t);
        let caret = r.0 + utf8_len(t);
        if next == m.value {
            (
                EditorModel {
                    start: caret,
                    end: caret,
                    reversed: false,
                    marked: None,
                    composition: None,
                    ..m
                },
                false,
            )
        } else {
            (
                EditorModel {
                    value: next,
                    start: caret,
                    end: caret,
                    reversed: false,
                    marked: None,
                    composition: None,
                    undo: push_bounded(m.undo, snapshot_of(m)),
                    redo: Seq::empty(),
                    ..m
                },
                true,
            )
        }
    }
}

/// What a horizontal caret movement steps over.
#[derive(Clone, Copy, PartialEq, Eq, Structural, Debug)]
pub enum HorizontalMovement {
    /// One grapheme cluster.
    Grapheme,
    /// To the previous word start or the next word end.
    Word,
    /// To the start or the end of the line.
    Line,
}

/// What a deletion removes when the selection is empty.
#[derive(Clone, Copy, PartialEq, Eq, Structural, Debug)]
pub enum Deletion {
    /// One grapheme cluster.
    Grapheme,
    /// Up to the previous word start or the next word end.
    Word,
    /// Up to the start or the end of the line.
    Line,
}

/// `t` is where a movement of kind `kind` from the caret ends, rightwards or leftwards.
pub open spec fn horizontal_target_of(m: EditorModel, right: bool, kind: HorizontalMovement, t: int) -> bool {
    let c = cursor_of(m);
    match kind {
        HorizontalMovement::Grapheme => if right {
            is_first_above(grapheme_starts_of(m.value), c, t, utf8_len(m.value) as int)
        } else {
            is_last_below(grapheme_starts_of(m.value), c, t)
        },
        HorizontalMovement::Word => if right {
            is_first_word_end_above(m.value, c, t)
        } else {
            is_last_word_start_below(m.value, c, t)
        },
        HorizontalMovement::Line => if right {
            t == utf8_len(m.value)
        } else {
            t == 0
        },
    }
}

/// The UTF-8 range, on grapheme boundaries, that a UTF-16 range of `v` designates.
pub open spec fn utf8_range_of_utf16(v: Seq<char>, r: Range<usize>) -> (int, int) {
    normalized_selection_of(
        v,
        (utf16_offset_to_utf8(v, r.start as int) as usize)..(utf16_offset_to_utf8(
            v,
            r.end as int,
        ) as usize),
    )
}

/// The range an input method edits: the given UTF-16 range, else the marked range, else the
/// selection.
pub open spec fn ime_target(m: EditorModel, range_utf16: Option<Range<usize>>) -> (int, int) {
    match range_utf16 {
        Some(r) => utf8_range_of_utf16(m.value, r),
        None => match m.marked {
            Some(x) => x,
            None => (m.start, m.end),
        },
    }
}

/// The state after an input method commits `text` over `range_utf16`, with whether the value
/// differs from the one before the composition started.
pub open spec fn commit_post(m: EditorModel, range_utf16: Option<Range<usize>>, text: Seq<char>) -> (
    EditorModel,
    bool,
) {
    if !model_can_edit(m) {
        (m, false)
    } else {
        let before = match m.composition {
            Some(c) => c,
            None => snapshot_of(m),
        };
        let t0 = ime_target(m, range_utf16);
        let r = normalized_selection_of(m.value, (t0.0 as usize)..(t0.1 as usize));
        let t = single_line(text);
        let next = spliced(m.value, r, t);
        let caret = r.0 + utf8_len(t);
        let changed = next != before.value;
        (
            EditorModel {
                value: next,
                start: caret,
                end: caret,
                reversed: false,
                marked: None,
                composition: None,
                undo: if changed {
                    push_bounded(m.undo, before)
                } else {
                    m.undo
                },
                redo: if changed {
                    Seq::empty()
                } else {
                    m.redo
                },
                ..m
            },
            changed,
        )
    }
}

/// The state after an input method replaces `range_utf16` by the uncommitted `text`, marking
/// it and selecting `selected_utf16` inside it (or putting the caret after it).
pub open spec fn mark_post(
    m: EditorModel,
    range_utf16: Option<Range<usize>>,
    text: Seq<char>,
    selected_utf16: Option<Range<usize>>,
) -> EditorModel {
    if !model_can_edit(m) {
        m
    } else {
        let t0 = ime_target(m, range_utf16);
        let r = normalized_selection_of(m.value, (t0.0 as usize)..(t0.1 as usize));
        let t = single_line(text);
        let next = spliced(m.value, r, t);
        let caret = r.0 + utf8_len(t);
        let sel = match selected_utf16 {
            Some(x) => {
                let q = utf8_range_of_utf16(t, x);
                (r.0 + q.0, r.0 + q.1)
            },
            None => (caret, caret),
        };
        EditorModel {
            value: next,
            start: sel.0,
            end: sel.1,
            reversed: false,
            marked: if t.len() > 0 {
                Some((r.0, caret))
            } else {
                None
            },
            composition: match m.composition {
                Some(c) => Some(c),
                None => Some(snapshot_of(m)),
            },
            ..m
        }
    }
}

/// The state after an input method ends the composition, keeping its text, with whether the
/// value differs from the one before the composition started.
pub open spec fn unmark_post(m: EditorModel) -> (EditorModel, bool) {
    let changed = m.composition matches Some(c) && c.value != m.value;
    (
        EditorModel {
            marked: None,
            composition: None,
            undo: if changed {
                push_bounded(m.undo, m.composition.unwrap())
            } else {
                m.undo
            },
            redo: if changed {
                Seq::empty()
            } else {
                m.redo
            },
            ..m
        },
        changed,
    )
}

/// The editing state of a single-line input.
pub struct InputState {
    value: String,
    selection: Range<usize>,
    selection_reversed: bool,
    marked_range: Option<Range<usize>>,
    composition_snapshot: Option<EditSnapshot>,
    undo_stack: Vec<EditSnapshot>,
    redo_stack: Vec<EditSnapshot>,
    disabled: bool,
    read_only: bool,
    password_hidden: bool,
    selecting: bool,
}

impl View for InputState {
    type V = EditorModel;

    closed spec fn view(&self) -> EditorModel {
        EditorModel {
            value: self.value@,
            start: self.selection.start as int,
            end: self.selection.end as int,
            reversed: self.selection_reversed,
            marked: match self.marked_range {
                Some(r) => Some((r.start as int, r.end as int)),
                None => None,
            },
            composition: match self.composition_snapshot {
                Some(c) => Some(c.model()),
                None => None,
            },
            undo: self.undo_stack@.map_values(|s: EditSnapshot| s.model()),
            redo: self.redo_stack@.map_values(|s: EditSnapshot| s.model()),
            disabled: self.disabled,
            read_only: self.read_only,
            password_hidden: self.password_hidden,
            selecting: self.selecting,
        }
    }
}

/// Copies a snapshot.
fn copy_snapshot(s: &EditSnapshot) -> (r: EditSnapshot)
    ensures
        r.model() == s.model(),
{
    EditSnapshot {
        value: s.value.clone(),
        selection: s.selection.start..s.selection.end,
        selection_reversed: s.selection_reversed,
    }
}

/// Pushes onto a history, dropping the oldest entry when it is full.
fn push_history(stack: &mut Vec<EditSnapshot>, snapshot: EditSnapshot)
    requires
        old(stack)@.len() <= MAX_HISTORY_ENTRIES,
    ensures
        final(stack)@.map_values(|s: EditSnapshot| s.model()) == push_bounded(
            old(stack)@.map_values(|s: EditSnapshot| s.model()),
            snapshot.model(),
        ),
        final(stack)@.len() <= MAX_HISTORY_ENTRIES,
{
    let ghost before = stack@.map_values(|s: EditSnapshot| s.model());
    if stack.len() == MAX_HISTORY_ENTRIES {
        stack.remove(0);
    }
    stack.push(snapshot);
    proof {
        let after = stack@.map_values(|s: EditSnapshot| s.model());
        if before.len() >= MAX_HISTORY_ENTRIES {
            assert(after =~= before.drop_first().push(snapshot.model()));
        } else {
            assert(after =~= before.push(snapshot.model()));
        }
    }
}

impl InputState {
    /// The editor invariant holds.
    pub closed spec fn wf(&self) -> bool {
        model_wf(self@)
    }

    /// An editor holding `initial_value` (line breaks turned into spaces), with the caret
    /// at its end.
    pub fn new(initial_value: &str) -> (r: InputState)
        ensures
            r.wf(),
            r@ == fresh_model(single_line(initial_value@), false, false, false),
    {
        let value = normalize_single_line(initial_value);
        let caret = text_len(value.as_str());
        let r = InputState {
            value,
            selection: caret..caret,
            selection_reversed: false,
            marked_range: None,
            composition_snapshot: None,
            undo_stack: Vec::new(),
            redo_stack: Vec::new(),
            disabled: false,
            read_only: false,
            password_hidden: false,
            selecting: false,
        };
        proof {
            lemma_single_line_is_single_line(initial_value@);
            lemma_len_is_boundary(r.value@);
            assert(r.undo_stack@.map_values(|s: EditSnapshot| s.model()) =~= Seq::empty());
            assert(r.redo_stack@.map_values(|s: EditSnapshot| s.model()) =~= Seq::empty());
        }
        r
    }

    /// The current value.
    pub fn value(&self) -> (r: &str)
        ensures
            r@ == self@.value,
    {
        self.value.as_str()
    }

    /// The current selection, as UTF-8 offsets.
    pub fn selection(&self) -> (r: Range<usize>)
        ensures
            r.start == self@.start,
            r.end == self@.end,
    {
        self.selection.start..self.selection.end
    }

    /// Whether the caret is at the start of the selection.
    pub fn selection_reversed(&self) -> (r: bool)
        ensures
            r == self@.reversed,
    {
        self.selection_reversed
    }

    /// The IME marked range, as UTF-8 offsets.
    pub fn marked_range(&self) -> (r: Option<Range<usize>>)
        ensures
            r matches Some(x) ==> self@.marked == Some((x.start as int, x.end as int)),
            r is None ==> self@.marked is None,
    {
        match &self.marked_range {
            Some(r) => Some(r.start..r.end),
            None => None,
        }
    }

    /// Whether the input is disabled.
    pub fn is_disabled(&self) -> (r: bool)
        ensures
            r == self@.disabled,
    {
        self.disabled
    }

    /// Whether the input shows a hidden password.
    pub fn is_password_hidden(&self) -> (r: bool)
        ensures
            r == self@.password_hidden,
    {
        self.password_hidden
    }

    /// Whether the value may be edited: the input is neither disabled nor read-only.
    pub fn can_edit(&self) -> (r: bool)
        ensures
            r == model_can_edit(self@),
    {
        !self.disabled && !self.read_only
    }

    /// Sets whether the input is disabled, read-only and showing a hidden password.
    pub fn configure(&mut self, disabled: bool, read_only: bool, password_hidden: bool)
        requires
            old(self).wf(),
        ensures
            final(self).wf(),
            final(self)@ == (EditorModel { disabled, read_only, password_hidden, ..old(self)@ }),
    {
        self.disabled = disabled;
        self.read_only = read_only;
        self.password_hidden = password_hidden;
    }

    fn snapshot(&self) -> (r: EditSnapshot)
        requires
            self.wf(),
        ensures
            r.model() == snapshot_of(self@),
            snapshot_wf(r.model()),
    {
        EditSnapshot {
            value: self.value.clone(),
            selection: self.selection.start..self.selection.end,
            selection_reversed: self.selection_reversed,
        }
    }

    fn end_composition(&mut self)
        ensures
            final(self)@ == (EditorModel { marked: None, composition: None, ..old(self)@ }),
    {
        self.marked_range = None;
        self.composition_snapshot = None;
    }

    /// Replaces the value programmatically (line breaks become spaces), ends any IME
    /// composition and puts the caret at the end. The previous value is kept for undo.
    /// Returns whether the view must be redrawn; no change event is due.
    pub fn set_value(&mut self, value: &str) -> (redraw: bool)
        requires
            old(self).wf(),
        ensures
            final(self).wf(),
            final(self)@ == set_value_post(old(self)@, single_line(value@)),
            redraw == !(single_line(value@) == old(self)@.value && old(self)@.marked is None),
    {
        let ghost typed = value@;
        let value = normalize_single_line(value);
        proof {
            lemma_single_line_is_single_line(typed);
        }
        let same = self.value == value;
        let redraw = !(same && self.marked_range.is_none());
        if !same {
            let before = match &self.composition_snapshot {
                Some(c) => copy_snapshot(c),
                None => self.snapshot(),
            };
            proof {
                lemma_push_bounded_wf(self@.undo, before.model());
            }
            push_history(&mut self.undo_stack, before);
            self.redo_stack.clear();
            proof {
                assert(self.redo_stack@.map_values(|s: EditSnapshot| s.model()) =~= Seq::empty());
            }
        }
        self.value = value;
        let caret = text_len(self.value.as_str());
        self.selection = caret..caret;
        self.selection_reversed = false;
        self.end_composition();
        proof {
            lemma_len_is_boundary(self.value@);
        }
        redraw
    }

    /// Clears the value programmatically; see `set_value`.
    pub fn clear(&mut self) -> (redraw: bool)
        requires
            old(self).wf(),
        ensures
            final(self).wf(),
            final(self)@ == set_value_post(old(self)@, Seq::empty()),
            redraw == !(old(self)@.value.len() == 0 && old(self)@.marked is None),
    {
        proof {
            reveal_strlit("");
            assert(""@ =~= Seq::<char>::empty());
            assert(single_line(Seq::<char>::empty()) =~= Seq::<char>::empty());
            if self@.value.len() == 0 {
                assert(self@.value =~= Seq::<char>::empty());
            }
        }
        self.set_value("")
    }

    /// Whether a pointer drag is selecting text.
    pub fn is_selecting(&self) -> (r: bool)
        ensures
            r == self@.selecting,
    {
        self.selecting
    }

    /// Starts or ends a pointer drag.
    pub(crate) fn set_selecting(&mut self, selecting: bool)
        requires
            old(self).wf(),
        ensures
            final(self).wf(),
            final(self)@ == (EditorModel { selecting, ..old(self)@ }),
    {
        self.selecting = selecting;
    }

    /// Resets the value, selection, composition and history, and ends any pointer drag.
    pub fn reset(&mut self, value: &str)
        requires
            old(self).wf(),
        ensures
            final(self).wf(),
            final(self)@ == fresh_model(
                single_line(value@),
                old(self)@.disabled,
                old(self)@.read_only,
                old(self)@.password_hidden,
            ),
    {
        self.value = normalize_single_line(value);
        let caret = text_len(self.value.as_str());
        self.selection = caret..caret;
        self.selection_reversed = false;
        self.end_composition();
        self.undo_stack.clear();
        self.redo_stack.clear();
        self.selecting = false;
        proof {
            lemma_single_line_is_single_line(value@);
            lemma_len_is_boundary(self.value@);
            assert(self.undo_stack@.map_values(|s: EditSnapshot| s.model()) =~= Seq::empty());
            assert(self.redo_stack@.map_values(|s: EditSnapshot| s.model()) =~= Seq::empty());
        }
    }

    /// Selects the whole value, unless the input is disabled. Returns whether anything changed.
    pub fn select_all(&mut self) -> (redraw: bool)
        requires
            old(self).wf(),
        ensures
            final(self).wf(),
            redraw == !old(self)@.disabled,
            final(self)@ == select_all_post(old(self)@),
    {
        if self.disabled {
            return false;
        }
        let len = text_len(self.value.as_str());
        self.selection = 0..len;
        self.selection_reversed = false;
        proof {
            lemma_len_is_boundary(self.value@);
            lemma_byte_to_char_of_char_to_byte(self.value@, 0);
            assert(self.value@.take(0) =~= Seq::<char>::empty());
        }
        true
    }
}

impl InputState {
    /// Restores a snapshot; returns whether the value changed.
    fn apply_snapshot(&mut self, snapshot: EditSnapshot) -> (changed: bool)
        requires
            snapshot_wf(snapshot.model()),
            old(self).wf(),
        ensures
            final(self).wf(),
            final(self)@ == apply_snapshot_post(old(self)@, snapshot.model()),
            changed == (old(self)@.value != snapshot.model().value),
    {
        let changed = !(self.value == snapshot.value);
        self.value = snapshot.value;
        let selection = normalize_selection(
            self.value.as_str(),
            snapshot.selection.start..snapshot.selection.end,
        );
        self.selection = selection.start..selection.end;
        self.selection_reversed = snapshot.selection_reversed && selection.start != selection.end;
        self.end_composition();
        changed
    }

    /// Undoes the last edit, saving the current state for redo. Returns `None` when there is
    /// nothing to undo or the input may not be edited; otherwise whether the value changed.
    pub fn undo(&mut self) -> (r: Option<bool>)
        requires
            old(self).wf(),
        ensures
            final(self).wf(),
            final(self)@ == undo_post(old(self)@),
            r == (if !model_can_edit(old(self)@) || old(self)@.undo.len() == 0 {
                None
            } else {
                Some(old(self)@.value != old(self)@.undo.last().value)
            }),
    {
        if !self.can_edit() {
            return None;
        }
        let ghost before = self@;
        let snapshot = match self.undo_stack.pop() {
            Some(s) => s,
            None => {
                return None;
            },
        };
        proof {
            assert(self.undo_stack@.map_values(|s: EditSnapshot| s.model()) =~= before.undo.drop_last());
            assert(snapshot.model() == before.undo.last());
            assert(snapshot_wf(before.undo[before.undo.len() - 1]));
        }
        let current = EditSnapshot {
            value: self.value.clone(),
            selection: self.selection.start..self.selection.end,
            selection_reversed: self.selection_reversed,
        };
        proof {
            lemma_push_bounded_wf(before.redo, current.model());
        }
        push_history(&mut self.redo_stack, current);
        Some(self.apply_snapshot(snapshot))
    }

    /// Redoes the last undone edit, saving the current state for undo. Returns `None` when
    /// there is nothing to redo or the input may not be edited; otherwise whether the value
    /// changed.
    pub fn redo(&mut self) -> (r: Option<bool>)
        requires
            old(self).wf(),
        ensures
            final(self).wf(),
            final(self)@ == redo_post(old(self)@),
            r == (if !model_can_edit(old(self)@) || old(self)@.redo.len() == 0 {
                None
            } else {
                Some(old(self)@.value != old(self)@.redo.last().value)
            }),
    {
        if !self.can_edit() {
            return None;
        }
        let ghost before = self@;
        let snapshot = match self.redo_stack.pop() {
            Some(s) => s,
            None => {
                return None;
            },
        };
        proof {
            assert(self.redo_stack@.map_values(|s: EditSnapshot| s.model()) =~= before.redo.drop_last());
            assert(snapshot.model() == before.redo.last());
            assert(snapshot_wf(before.redo[before.redo.len() - 1]));
        }
        let current = EditSnapshot {
            value: self.value.clone(),
            selection: self.selection.start..self.selection.end,
            selection_reversed: self.selection_reversed,
        };
        proof {
            lemma_push_bounded_wf(before.undo, current.model());
        }
        push_history(&mut self.undo_stack, current);
        Some(self.apply_snapshot(snapshot))
    }

    /// Offset of the caret.
    pub fn cursor_offset(&self) -> (r: usize)
        ensures
            r == cursor_of(self@),
    {
        if self.selection_reversed {
            self.selection.start
        } else {
            self.selection.end
        }
    }

    /// Offset of the selection anchor.
    pub fn anchor_offset(&self) -> (r: usize)
        ensures
            r == anchor_of(self@),
    {
        if self.selection_reversed {
            self.selection.end
        } else {
            self.selection.start
        }
    }

    /// Collapses the selection to the grapheme boundary nearest to `offset`.
    pub fn move_to(&mut self, offset: usize)
        requires
            old(self).wf(),
        ensures
            final(self).wf(),
            final(self)@ == move_to_post(old(self)@, offset as int),
    {
        let offset = nearest_grapheme_boundary(self.value.as_str(), offset);
        self.selection = offset..offset;
        self.selection_reversed = false;
    }

    /// Extends the selection from its anchor to the grapheme boundary nearest to `offset`.
    pub fn select_to(&mut self, offset: usize)
        requires
            old(self).wf(),
        ensures
            final(self).wf(),
            final(self)@ == select_to_post(old(self)@, offset as int),
    {
        let offset = nearest_grapheme_boundary(self.value.as_str(), offset);
        let anchor = self.anchor_offset();
        if offset < anchor {
            self.selection = offset..anchor;
            self.selection_reversed = true;
        } else {
            self.selection = anchor..offset;
            self.selection_reversed = false;
        }
    }

    /// Replaces `range` by `text` as a user edit (see `replace_post`); returns whether the
    /// value changed, in which case a change event is due.
    pub fn replace_user_range(&mut self, range: Range<usize>, text: &str) -> (changed: bool)
        requires
            old(self).wf(),
        ensures
            final(self).wf(),
            (final(self)@, changed) == replace_post(old(self)@, range, text@),
    {
        if !self.can_edit() {
            return false;
        }
        let ghost m = self@;
        let range = normalize_selection(self.value.as_str(), range);
        let ghost typed = text@;
        let text = normalize_single_line(text);
        let next = replace_text(self.value.as_str(), range.start..range.end, text.as_str());
        let total = text_len(next.as_str());
        let inserted = text_len(text.as_str());
        proof {
            let v = m.value;
            let a = v.take(byte_to_char(v, range.start as int) as int);
            let b = v.skip(byte_to_char(v, range.end as int) as int);
            lemma_boundary_prefix(v, range.start as int);
            lemma_boundary_prefix(v, range.end as int);
            lemma_utf8_len_append(a, text@);
            lemma_utf8_len_append(a + text@, b);
            lemma_len_is_boundary(text@);
            lemma_concat_boundary(a, text@, b, utf8_len(text@) as int);
            lemma_single_line_is_single_line(typed);
            lemma_single_line_subrange(v, 0, byte_to_char(v, range.start as int) as int);
            lemma_single_line_subrange(v, byte_to_char(v, range.end as int) as int, v.len() as int);
            assert(v.subrange(0, byte_to_char(v, range.start as int) as int) =~= a);
            assert(v.subrange(byte_to_char(v, range.end as int) as int, v.len() as int) =~= b);
            lemma_single_line_concat(a, text@);
            lemma_single_line_concat(a + text@, b);
        }
        let caret = range.start + inserted;
        if next == self.value {
            self.selection = caret..caret;
            self.selection_reversed = false;
            self.end_composition();
            return false;
        }
        let before = self.snapshot();
        proof {
            lemma_push_bounded_wf(m.undo, before.model());
        }
        push_history(&mut self.undo_stack, before);
        self.redo_stack.clear();
        self.value = next;
        self.selection = caret..caret;
        self.selection_reversed = false;
        self.end_composition();
        proof {
            assert(self.redo_stack@.map_values(|s: EditSnapshot| s.model()) =~= Seq::empty());
        }
        true
    }
}

impl InputState {
    /// Clears the value as a user edit, unless it is empty or may not be edited; returns
    /// whether the value changed.
    pub fn user_clear(&mut self) -> (changed: bool)
        requires
            old(self).wf(),
        ensures
            final(self).wf(),
            old(self)@.value.len() == 0 || !model_can_edit(old(self)@) ==> final(self)@ == old(
                self,
            )@ && !changed,
            old(self)@.value.len() > 0 && model_can_edit(old(self)@) ==> (final(self)@, changed)
                == replace_post(old(self)@, 0..(utf8_len(old(self)@.value) as usize), Seq::empty()),
    {
        let len = text_len(self.value.as_str());
        if len == 0 || !self.can_edit() {
            proof {
                if len == 0 {
                    lemma_utf8_len_zero(self@.value);
                }
            }
            return false;
        }
        proof {
            reveal_strlit("");
            assert(""@ =~= Seq::<char>::empty());
            if self@.value.len() == 0 {
                assert(utf8_len(self@.value) == 0);
            }
        }
        self.replace_user_range(0..len, "")
    }


    /// Assistive technology sets the whole value: a user edit of the whole text, refused
    /// when the input may not be edited; returns whether the value changed.
    pub fn a11y_set_value(&mut self, value: &str) -> (changed: bool)
        requires
            old(self).wf(),
        ensures
            final(self).wf(),
            !model_can_edit(old(self)@) ==> final(self)@ == old(self)@ && !changed,
            model_can_edit(old(self)@) ==> (final(self)@, changed) == replace_post(
                old(self)@,
                0..(utf8_len(old(self)@.value) as usize),
                value@,
            ),
    {
        if !self.can_edit() {
            return false;
        }
        let len = text_len(self.value.as_str());
        self.replace_user_range(0..len, value)
    }
    /// Selects the word at `offset`, or the grapheme cluster there when no word covers it.
    pub fn select_word_at(&mut self, offset: usize)
        requires
            old(self).wf(),
        ensures
            final(self).wf(),
            exists|r: Range<usize>|
                #[trigger] is_word_range_at(old(self)@.value, offset as int, r) && final(self)@
                    == (EditorModel {
                    start: r.start as int,
                    end: r.end as int,
                    reversed: false,
                    ..old(self)@
                }),
    {
        let range = word_range_at(self.value.as_str(), offset);
        self.selection = range.start..range.end;
        self.selection_reversed = false;
    }

    /// Deletes backwards: the selection when there is one, otherwise from the boundary that
    /// `kind` designates before the caret up to the caret. Returns whether the value changed.
    pub fn delete_backward(&mut self, kind: Deletion) -> (changed: bool)
        requires
            old(self).wf(),
        ensures
            final(self).wf(),
            delete_backward_post(old(self)@, kind, final(self)@, changed),
    {
        proof {
            reveal_strlit("");
            assert(""@ =~= Seq::<char>::empty());
        }
        if self.selection.start != self.selection.end {
            return self.replace_user_range(self.selection.start..self.selection.end, "");
        }
        let cursor = self.cursor_offset();
        let start = match kind {
            Deletion::Grapheme => previous_grapheme_boundary(self.value.as_str(), cursor),
            Deletion::Word => previous_word_boundary(self.value.as_str(), cursor),
            Deletion::Line => 0,
        };
        proof {
            assert(horizontal_target_of(self@, false, movement_of(kind), start as int));
        }
        self.replace_user_range(start..cursor, "")
    }

    /// Deletes forwards: the selection when there is one, otherwise from the caret up to the
    /// boundary that `kind` designates after it. Returns whether the value changed.
    pub fn delete_forward(&mut self, kind: Deletion) -> (changed: bool)
        requires
            old(self).wf(),
        ensures
            final(self).wf(),
            delete_forward_post(old(self)@, kind, final(self)@, changed),
    {
        proof {
            reveal_strlit("");
            assert(""@ =~= Seq::<char>::empty());
        }
        if self.selection.start != self.selection.end {
            return self.replace_user_range(self.selection.start..self.selection.end, "");
        }
        let cursor = self.cursor_offset();
        let end = match kind {
            Deletion::Grapheme => next_grapheme_boundary(self.value.as_str(), cursor),
            Deletion::Word => next_word_boundary(self.value.as_str(), cursor),
            Deletion::Line => text_len(self.value.as_str()),
        };
        proof {
            assert(horizontal_target_of(self@, true, movement_of(kind), end as int));
        }
        self.replace_user_range(cursor..end, "")
    }

    /// Where a horizontal movement from the caret ends.
    fn horizontal_target(&self, right: bool, kind: HorizontalMovement) -> (t: usize)
        requires
            self.wf(),
        ensures
            horizontal_target_of(self@, right, kind, t as int),
    {
        let cursor = self.cursor_offset();
        match kind {
            HorizontalMovement::Grapheme => if right {
                next_grapheme_boundary(self.value.as_str(), cursor)
            } else {
                previous_grapheme_boundary(self.value.as_str(), cursor)
            },
            HorizontalMovement::Word => if right {
                next_word_boundary(self.value.as_str(), cursor)
            } else {
                previous_word_boundary(self.value.as_str(), cursor)
            },
            HorizontalMovement::Line => if right {
                text_len(self.value.as_str())
            } else {
                0
            },
        }
    }

    /// Moves the caret left or right, extending the selection when `extend_selection`.
    /// Without extension, a grapheme step over a non-empty selection collapses it to the side
    /// of the movement. Returns whether anything was done.
    pub fn move_horizontal(
        &mut self,
        right: bool,
        kind: HorizontalMovement,
        extend_selection: bool,
    ) -> (moved: bool)
        requires
            old(self).wf(),
        ensures
            final(self).wf(),
            move_horizontal_post(old(self)@, right, kind, extend_selection, final(self)@, moved),
    {
        let cursor = self.cursor_offset();
        let target = self.horizontal_target(right, kind);
        if extend_selection {
            self.select_to(target);
            true
        } else if self.selection.start != self.selection.end && kind == HorizontalMovement::Grapheme {
            let to = if right {
                self.selection.end
            } else {
                self.selection.start
            };
            self.move_to(to);
            true
        } else if target != cursor || self.selection.start == self.selection.end {
            self.move_to(target);
            true
        } else {
            false
        }
    }

    /// The selected text, unless it is empty or belongs to a hidden password.
    pub fn copy_text(&self) -> (r: Option<String>)
        requires
            self.wf(),
        ensures
            self@.password_hidden || self@.start == self@.end ==> r is None,
            !self@.password_hidden && self@.start != self@.end ==> (r matches Some(t) && t@
                == self@.value.subrange(
                byte_to_char(self@.value, self@.start) as int,
                byte_to_char(self@.value, self@.end) as int,
            )),
    {
        if self.password_hidden || self.selection.start == self.selection.end {
            return None;
        }
        let table = CharTable::new(self.value.as_str());
        proof {
            lemma_boundary_prefix(self@.value, self@.start);
            lemma_boundary_prefix(self@.value, self@.end);
            lemma_byte_to_char_mono(self@.value, self@.start, self@.end);
        }
        let a = char_index_of_byte(&table, self.selection.start);
        let b = char_index_of_byte(&table, self.selection.end);
        Some(table_substring(&table, a, b))
    }

    /// Cuts the selection: returns the text for the clipboard and whether the value changed.
    /// Nothing happens for a hidden password, an empty selection or an input that may not be
    /// edited.
    pub fn cut(&mut self) -> (r: (Option<String>, bool))
        requires
            old(self).wf(),
        ensures
            final(self).wf(),
            old(self)@.password_hidden || old(self)@.start == old(self)@.end || !model_can_edit(
                old(self)@,
            ) ==> r.0 is None && !r.1 && final(self)@ == old(self)@,
            !(old(self)@.password_hidden || old(self)@.start == old(self)@.end || !model_can_edit(
                old(self)@,
            )) ==> (r.0 matches Some(t) && t@ == old(self)@.value.subrange(
                byte_to_char(old(self)@.value, old(self)@.start) as int,
                byte_to_char(old(self)@.value, old(self)@.end) as int,
            )) && (final(self)@, r.1) == replace_post(
                old(self)@,
                (old(self)@.start as usize)..(old(self)@.end as usize),
                Seq::empty(),
            ),
    {
        if self.password_hidden || self.selection.start == self.selection.end || !self.can_edit() {
            return (None, false);
        }
        let copied = self.copy_text();
        proof {
            reveal_strlit("");
            assert(""@ =~= Seq::<char>::empty());
        }
        let changed = self.replace_user_range(self.selection.start..self.selection.end, "");
        (copied, changed)
    }

    /// Replaces the selection by pasted `text`; returns whether the value changed.
    pub fn paste(&mut self, text: &str) -> (changed: bool)
        requires
            old(self).wf(),
        ensures
            final(self).wf(),
            (final(self)@, changed) == replace_post(
                old(self)@,
                (old(self)@.start as usize)..(old(self)@.end as usize),
                text@,
            ),
    {
        self.replace_user_range(self.selection.start..self.selection.end, text)
    }
}

impl InputState {
    /// The UTF-16 length of the value.
    pub fn text_length_utf16(&self) -> (r: usize)
        requires
            self.wf(),
        ensures
            r == utf16_len(self@.value),
    {
        let len = text_len(self.value.as_str());
        proof {
            crate::text::utf::lemma_byte_to_char_bounds(self@.value, len as int);
            assert(self@.value.take(self@.value.len() as int) =~= self@.value);
        }
        utf8_to_utf16(self.value.as_str(), len)
    }

    /// The UTF-16 offset of the UTF-8 offset `offset`.
    pub fn utf16_offset(&self, offset: usize) -> (r: usize)
        ensures
            r == utf8_offset_to_utf16(self@.value, offset as int),
    {
        utf8_to_utf16(self.value.as_str(), offset)
    }

    /// The text of a UTF-16 range, moved to grapheme boundaries, with that adjusted range in
    /// UTF-16.
    pub fn text_for_range(&self, range_utf16: Range<usize>) -> (r: (String, Range<usize>))
        requires
            self.wf(),
        ensures
            ({
                let q = utf8_range_of_utf16(self@.value, range_utf16);
                &&& r.0@ == self@.value.subrange(
                    byte_to_char(self@.value, q.0) as int,
                    byte_to_char(self@.value, q.1) as int,
                )
                &&& r.1.start == utf8_offset_to_utf16(self@.value, q.0)
                &&& r.1.end == utf8_offset_to_utf16(self@.value, q.1)
            }),
    {
        let range = range_from_utf16(self.value.as_str(), range_utf16);
        let adjusted = range_to_utf16(self.value.as_str(), range.start..range.end);
        let table = CharTable::new(self.value.as_str());
        proof {
            lemma_boundary_prefix(self@.value, range.start as int);
            lemma_boundary_prefix(self@.value, range.end as int);
            lemma_byte_to_char_mono(self@.value, range.start as int, range.end as int);
        }
        let a = char_index_of_byte(&table, range.start);
        let b = char_index_of_byte(&table, range.end);
        (table_substring(&table, a, b), adjusted)
    }

    /// The selection in UTF-16 with its direction, unless the input is disabled and disabled
    /// inputs are not asked for.
    pub fn selected_text_range(&self, ignore_disabled_input: bool) -> (r: Option<(Range<usize>, bool)>)
        ensures
            self@.disabled && !ignore_disabled_input ==> r is None,
            !(self@.disabled && !ignore_disabled_input) ==> (r matches Some(x) && x.0.start
                == utf8_offset_to_utf16(self@.value, self@.start) && x.0.end
                == utf8_offset_to_utf16(self@.value, self@.end) && x.1 == self@.reversed),
    {
        if self.disabled && !ignore_disabled_input {
            return None;
        }
        Some((
            range_to_utf16(self.value.as_str(), self.selection.start..self.selection.end),
            self.selection_reversed,
        ))
    }

    /// The marked range in UTF-16.
    pub fn marked_text_range(&self) -> (r: Option<Range<usize>>)
        ensures
            self@.marked is None ==> r is None,
            self@.marked matches Some(x) ==> (r matches Some(y) && y.start == utf8_offset_to_utf16(
                self@.value,
                x.0,
            ) && y.end == utf8_offset_to_utf16(self@.value, x.1)),
    {
        match &self.marked_range {
            Some(range) => Some(range_to_utf16(self.value.as_str(), range.start..range.end)),
            None => None,
        }
    }

    /// The range an input method edits, in UTF-8.
    fn ime_range(&self, range_utf16: Option<Range<usize>>) -> (r: Range<usize>)
        requires
            self.wf(),
        ensures
            (r.start as int, r.end as int) == ime_target(self@, range_utf16),
    {
        match range_utf16 {
            Some(range) => range_from_utf16(self.value.as_str(), range),
            None => match &self.marked_range {
                Some(range) => range.start..range.end,
                None => self.selection.start..self.selection.end,
            },
        }
    }

    /// Ends the composition, keeping its text; returns whether the value differs from the one
    /// before the composition (a change event is then due). The view must be redrawn.
    pub fn unmark_text(&mut self) -> (changed: bool)
        requires
            old(self).wf(),
        ensures
            final(self).wf(),
            (final(self)@, changed) == unmark_post(old(self)@),
    {
        let ghost m = self@;
        let changed = match &self.composition_snapshot {
            Some(snapshot) => !(snapshot.value == self.value),
            None => false,
        };
        let taken = self.composition_snapshot.take();
        if changed {
            match taken {
                Some(snapshot) => {
                    proof {
                        lemma_push_bounded_wf(m.undo, snapshot.model());
                    }
                    push_history(&mut self.undo_stack, snapshot);
                    self.redo_stack.clear();
                    proof {
                        assert(self.redo_stack@.map_values(|s: EditSnapshot| s.model())
                            =~= Seq::empty());
                    }
                },
                None => {},
            }
        }
        self.marked_range = None;
        changed
    }

    /// Commits `text` from an input method over `range_utf16` (see `commit_post`); returns
    /// whether a change event is due.
    pub fn replace_text_in_range(&mut self, range_utf16: Option<Range<usize>>, text: &str) -> (changed: bool)
        requires
            old(self).wf(),
        ensures
            final(self).wf(),
            (final(self)@, changed) == commit_post(old(self)@, range_utf16, text@),
    {
        if !self.can_edit() {
            return false;
        }
        let ghost m = self@;
        let range = self.ime_range(range_utf16);
        let composition = self.composition_snapshot.take();
        let before = match composition {
            Some(c) => c,
            None => self.snapshot(),
        };
        let range = normalize_selection(self.value.as_str(), range);
        let ghost typed = text@;
        let text = normalize_single_line(text);
        let next = replace_text(self.value.as_str(), range.start..range.end, text.as_str());
        let total = text_len(next.as_str());
        let inserted = text_len(text.as_str());
        proof {
            lemma_splice_facts(m.value, range.start as int, range.end as int, typed, text@);
        }
        let caret = range.start + inserted;
        let changed = !(next == before.value);
        self.value = next;
        self.selection = caret..caret;
        self.selection_reversed = false;
        self.marked_range = None;
        if changed {
            proof {
                lemma_push_bounded_wf(m.undo, before.model());
            }
            push_history(&mut self.undo_stack, before);
            self.redo_stack.clear();
            proof {
                assert(self.redo_stack@.map_values(|s: EditSnapshot| s.model()) =~= Seq::empty());
            }
        }
        changed
    }

    /// Replaces `range_utf16` by uncommitted `new_text` from an input method and marks it
    /// (see `mark_post`). The view must be redrawn when the input may be edited.
    pub fn replace_and_mark_text_in_range(
        &mut self,
        range_utf16: Option<Range<usize>>,
        new_text: &str,
        new_selected_range_utf16: Option<Range<usize>>,
    ) -> (redraw: bool)
        requires
            old(self).wf(),
        ensures
            final(self).wf(),
            final(self)@ == mark_post(old(self)@, range_utf16, new_text@, new_selected_range_utf16),
            redraw == model_can_edit(old(self)@),
    {
        if !self.can_edit() {
            return false;
        }
        let ghost m = self@;
        if self.composition_snapshot.is_none() {
            self.composition_snapshot = Some(self.snapshot());
        }
        let range = self.ime_range(range_utf16);
        let range = normalize_selection(self.value.as_str(), range);
        let ghost typed = new_text@;
        let new_text = normalize_single_line(new_text);
        let next = replace_text(self.value.as_str(), range.start..range.end, new_text.as_str());
        let total = text_len(next.as_str());
        let inserted = text_len(new_text.as_str());
        proof {
            lemma_splice_facts(m.value, range.start as int, range.end as int, typed, new_text@);
        }
        let caret = range.start + inserted;
        let ghost a = m.value.take(byte_to_char(m.value, range.start as int) as int);
        let ghost b = m.value.skip(byte_to_char(m.value, range.end as int) as int);
        let selection = match new_selected_range_utf16 {
            Some(selected) => {
                let q = range_from_utf16(new_text.as_str(), selected);
                proof {
                    lemma_concat_boundary(a, new_text@, b, q.start as int);
                    lemma_concat_boundary(a, new_text@, b, q.end as int);
                    lemma_boundary_le_len(new_text@, q.end as int);
                }
                (range.start + q.start)..(range.start + q.end)
            },
            None => caret..caret,
        };
        self.value = next;
        self.marked_range = if inserted > 0 {
            Some(range.start..caret)
        } else {
            None
        };
        proof {
            if inserted > 0 {
                assert(new_text@.len() > 0) by {
                    if new_text@.len() == 0 {
                        assert(utf8_len(new_text@) == 0);
                    }
                }
            } else {
                lemma_utf8_len_zero(new_text@);
            }
            if new_text@.len() > 0 {
                assert(inserted > 0) by {
                    crate::text::utf::lemma_utf16_le_utf8(new_text@);
                }
            }
            lemma_concat_boundary(a, new_text@, b, 0);
            assert(utf8_len(a) + 0 == range.start);
        }
        self.selection = selection;
        self.selection_reversed = false;
        true
    }

    /// Selects the UTF-16 range given by an input method (moved to grapheme boundaries),
    /// unless the input is disabled. Returns whether anything changed.
    pub fn set_selected_text_range(&mut self, range_utf16: Range<usize>) -> (redraw: bool)
        requires
            old(self).wf(),
        ensures
            final(self).wf(),
            redraw == !old(self)@.disabled,
            old(self)@.disabled ==> final(self)@ == old(self)@,
            !old(self)@.disabled ==> final(self)@ == ({
                let q = utf8_range_of_utf16(old(self)@.value, range_utf16);
                EditorModel { start: q.0, end: q.1, reversed: false, ..old(self)@ }
            }),
    {
        if self.disabled {
            return false;
        }
        let range = range_from_utf16(self.value.as_str(), range_utf16);
        self.selection = range;
        self.selection_reversed = false;
        true
    }
}

/// Facts about splicing normalized `t` (from `typed`) into `v` between two boundaries.
proof fn lemma_splice_facts(v: Seq<char>, x: int, y: int, typed: Seq<char>, t: Seq<char>)
    requires
        is_single_line(v),
        x <= y,
        is_char_boundary(v, x),
        is_char_boundary(v, y),
        t == single_line(typed),
    ensures
        ({
            let a = v.take(byte_to_char(v, x) as int);
            let b = v.skip(byte_to_char(v, y) as int);
            &&& utf8_len(a) == x
            &&& utf8_len(a + t + b) == x + utf8_len(t) + utf8_len(b)
            &&& is_char_boundary(a + t + b, x + utf8_len(t))
            &&& is_single_line(a + t + b)
            &&& is_single_line(t)
        }),
{
    let a = v.take(byte_to_char(v, x) as int);
    let b = v.skip(byte_to_char(v, y) as int);
    lemma_boundary_prefix(v, x);
    lemma_boundary_prefix(v, y);
    lemma_utf8_len_append(a, t);
    lemma_utf8_len_append(a + t, b);
    lemma_len_is_boundary(t);
    lemma_concat_boundary(a, t, b, utf8_len(t) as int);
    lemma_single_line_is_single_line(typed);
    lemma_single_line_subrange(v, 0, byte_to_char(v, x) as int);
    lemma_single_line_subrange(v, byte_to_char(v, y) as int, v.len() as int);
    assert(v.subrange(0, byte_to_char(v, x) as int) =~= a);
    assert(v.subrange(byte_to_char(v, y) as int, v.len() as int) =~= b);
    lemma_single_line_concat(a, t);
    lemma_single_line_concat(a + t, b);
}

/// The state after selecting the whole value (unless disabled).
pub open spec fn select_all_post(m: EditorModel) -> EditorModel {
    if m.disabled {
        m
    } else {
        EditorModel { start: 0, end: utf8_len(m.value) as int, reversed: false, ..m }
    }
}

/// `post` and `changed` are the outcome of deleting backwards with `kind` from `m`.
pub open spec fn delete_backward_post(m: EditorModel, kind: Deletion, post: EditorModel, changed: bool) -> bool {
    if m.start != m.end {
        (post, changed) == replace_post(m, (m.start as usize)..(m.end as usize), Seq::empty())
    } else {
        exists|p: int|
            #[trigger] horizontal_target_of(m, false, movement_of(kind), p) && (post, changed)
                == replace_post(m, (p as usize)..(cursor_of(m) as usize), Seq::empty())
    }
}

/// `post` and `changed` are the outcome of deleting forwards with `kind` from `m`.
pub open spec fn delete_forward_post(m: EditorModel, kind: Deletion, post: EditorModel, changed: bool) -> bool {
    if m.start != m.end {
        (post, changed) == replace_post(m, (m.start as usize)..(m.end as usize), Seq::empty())
    } else {
        exists|p: int|
            #[trigger] horizontal_target_of(m, true, movement_of(kind), p) && (post, changed)
                == replace_post(m, (cursor_of(m) as usize)..(p as usize), Seq::empty())
    }
}

/// `post` and `moved` are the outcome of a horizontal movement from `m`.
pub open spec fn move_horizontal_post(
    m: EditorModel,
    right: bool,
    kind: HorizontalMovement,
    extend: bool,
    post: EditorModel,
    moved: bool,
) -> bool {
    exists|t: int|
        #[trigger] horizontal_target_of(m, right, kind, t) && if extend {
            moved && post == select_to_post(m, t)
        } else if m.start != m.end && kind == HorizontalMovement::Grapheme {
            moved && post == move_to_post(
                m,
                if right {
                    m.end
                } else {
                    m.start
                },
            )
        } else if t != cursor_of(m) || m.start == m.end {
            moved && post == move_to_post(m, t)
        } else {
            !moved && post == m
        }
}

/// The movement whose target a deletion of kind `kind` deletes up to.
pub open spec fn movement_of(kind: Deletion) -> HorizontalMovement {
    match kind {
        Deletion::Grapheme => HorizontalMovement::Grapheme,
        Deletion::Word => HorizontalMovement::Word,
        Deletion::Line => HorizontalMovement::Line,
    }
}

/// A text of zero bytes is empty.
pub proof fn lemma_utf8_len_zero(s: Seq<char>)
    requires
        utf8_len(s) == 0,
    ensures
        s.len() == 0,
{
    if s.len() > 0 {
        crate::text::utf::lemma_utf16_le_utf8(s);
    }
}

/// Pushing a well-formed snapshot keeps a history well formed and bounded.
pub proof fn lemma_push_bounded_wf(h: Seq<SnapshotModel>, s: SnapshotModel)
    requires
        h.len() <= MAX_HISTORY_ENTRIES,
        forall|i: int| 0 <= i < h.len() ==> snapshot_wf(#[trigger] h[i]),
        snapshot_wf(s),
    ensures
        push_bounded(h, s).len() <= MAX_HISTORY_ENTRIES,
        forall|i: int|
            0 <= i < push_bounded(h, s).len() ==> snapshot_wf(#[trigger] push_bounded(h, s)[i]),
{
    let p = push_bounded(h, s);
    assert forall|i: int| 0 <= i < p.len() implies snapshot_wf(#[trigger] p[i]) by {
        if h.len() >= MAX_HISTORY_ENTRIES {
            if i < p.len() - 1 {
                assert(p[i] == h[i + 1]);
            }
        } else {
            if i < p.len() - 1 {
                assert(p[i] == h[i]);
            }
        }
    }
}

/// Undoing an edit that changed the value brings the value back, and the edit can then be
/// redone.
pub proof fn lemma_undo_reverts_edit(m: EditorModel, range: Range<usize>, text: Seq<char>)
    requires
        replace_post(m, range, text).1,
    ensures
        undo_post(replace_post(m, range, text).0).value == m.value,
        redo_post(undo_post(replace_post(m, range, text).0)).value == replace_post(
            m,
            range,
            text,
        ).0.value,
{
    let edited = replace_post(m, range, text).0;
    assert(edited.undo.last() == snapshot_of(m)) by {
        if m.undo.len() >= MAX_HISTORY_ENTRIES {
            assert(push_bounded(m.undo, snapshot_of(m)) == m.undo.drop_first().push(
                snapshot_of(m),
            ));
        }
    }
    let undone = undo_post(edited);
    assert(undone.redo.last() == snapshot_of(edited)) by {
        if edited.redo.len() >= MAX_HISTORY_ENTRIES {
        }
    }
}

/// Undoing and then redoing gives the value back.
pub proof fn lemma_redo_after_undo(m: EditorModel)
    requires
        model_can_edit(m),
        m.undo.len() > 0,
    ensures
        undo_post(m).value == m.undo.last().value,
        redo_post(undo_post(m)).value == m.value,
{
    let undone = undo_post(m);
    assert(undone.redo.last() == snapshot_of(m)) by {
        if m.redo.len() >= MAX_HISTORY_ENTRIES {
        }
    }
}

/// A composition is undone as one edit: marking text and then
/// committing it leaves one history entry, and undoing it brings back the value from
/// before the composition started.
pub proof fn lemma_composition_undoes_as_one(
    m: EditorModel,
    marked_text: Seq<char>,
    selected: Option<Range<usize>>,
    committed_text: Seq<char>,
)
    requires
        model_can_edit(m),
        m.composition is None,
        commit_post(mark_post(m, None, marked_text, selected), None, committed_text).1,
    ensures
        commit_post(mark_post(m, None, marked_text, selected), None, committed_text).0.undo.len()
            == push_bounded(m.undo, snapshot_of(m)).len(),
        undo_post(
            commit_post(mark_post(m, None, marked_text, selected), None, committed_text).0,
        ).value == m.value,
{
    let composed = mark_post(m, None, marked_text, selected);
    assert(composed.composition == Some(snapshot_of(m)));
    let committed = commit_post(composed, None, committed_text).0;
    assert(committed.undo == push_bounded(m.undo, snapshot_of(m)));
    assert(committed.undo.last() == snapshot_of(m)) by {
        if m.undo.len() >= MAX_HISTORY_ENTRIES {
        }
    }
}

/// Setting the value it already has keeps the value and both histories, and moves the
/// caret to the end with nothing selected.
pub proof fn lemma_set_same_value_keeps_history(m: EditorModel)
    ensures
        set_value_post(m, m.value).value == m.value,
        set_value_post(m, m.value).undo == m.undo,
        set_value_post(m, m.value).redo == m.redo,
        set_value_post(m, m.value).start == utf8_len(m.value),
        set_value_post(m, m.value).end == utf8_len(m.value),
        set_value_post(m, m.value).marked is None,
{
}

/// The end of a text is a character boundary.
pub proof fn lemma_len_is_boundary(s: Seq<char>)
    ensures
        is_char_boundary(s, utf8_len(s) as int),
        is_char_boundary(s, 0),
{
    lemma_byte_to_char_of_char_to_byte(s, s.len() as int);
    assert(s.take(s.len() as int) =~= s);
    lemma_byte_to_char_of_char_to_byte(s, 0);
    assert(s.take(0) =~= Seq::<char>::empty());
}

/// A grapheme boundary is the nearest boundary to itself.
pub proof fn lemma_nearest_of_boundary(s: Seq<char>, b: int)
    requires
        is_grapheme_boundary(s, b),
    ensures
        nearest_grapheme_boundary_of(s, b) == b,
{
    lemma_boundary_is_nearest(s, b);
    let r = choose|r: int| is_nearest_grapheme_boundary(s, b, r);
    lemma_nearest_unique(s, b, r, b);
}

/// An arrow step by one grapheme without Shift over a non-empty selection (on grapheme
/// boundaries) collapses it: Right leaves the caret at the selection's end, Left at its
/// start; the value is unchanged.
pub proof fn lemma_arrow_collapses_selection(
    m: EditorModel,
    right: bool,
    post: EditorModel,
    moved: bool,
)
    requires
        m.start < m.end,
        is_grapheme_boundary(m.value, m.start),
        is_grapheme_boundary(m.value, m.end),
        move_horizontal_post(m, right, HorizontalMovement::Grapheme, false, post, moved),
    ensures
        moved,
        post.value == m.value,
        post.start == post.end,
        !post.reversed,
        right ==> post.end == m.end,
        !right ==> post.start == m.start,
{
    lemma_nearest_of_boundary(m.value, m.start);
    lemma_nearest_of_boundary(m.value, m.end);
}

/// A line step without Shift goes to the start (Left) or the end (Right) of the value,
/// unless a non-empty selection already has its caret there, which then stays as it is.
pub proof fn lemma_line_step_reaches_edge(
    m: EditorModel,
    right: bool,
    post: EditorModel,
    moved: bool,
)
    requires
        move_horizontal_post(m, right, HorizontalMovement::Line, false, post, moved),
    ensures
        post.value == m.value,
        right && (m.start == m.end || cursor_of(m) != utf8_len(m.value)) ==> moved && post.start
            == utf8_len(m.value) && post.end == utf8_len(m.value),
        right && m.start != m.end && cursor_of(m) == utf8_len(m.value) ==> !moved && post == m,
        !right && m.start != m.end && cursor_of(m) == 0 ==> !moved && post == m,
{
    let n = utf8_len(m.value) as int;
    lemma_nearest_of_boundary(m.value, n);
}

/// With Shift, a horizontal step always moves and keeps the selection's anchor: the
/// anchor stays one end of the selection, which is reversed exactly when the caret went
/// before it. The value is unchanged.
pub proof fn lemma_extending_step_keeps_anchor(
    m: EditorModel,
    right: bool,
    kind: HorizontalMovement,
    post: EditorModel,
    moved: bool,
)
    requires
        move_horizontal_post(m, right, kind, true, post, moved),
    ensures
        moved,
        post.value == m.value,
        post.reversed ==> post.end == anchor_of(m) && post.start < post.end,
        !post.reversed ==> post.start == anchor_of(m),
{
}

} // verus!
