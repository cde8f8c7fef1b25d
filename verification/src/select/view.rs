//! What the select's trigger and option rows show, and what choosing an option requests.
use vstd::prelude::*;

use super::source::{opt_of, options_before, OwnedSelectDataSource};
use super::state::{enabled_row, SelectInteraction};
use super::types::{SelectEntry, SelectStatus};
use crate::control::CursorKind;

verus! {

/// The chevron of a closed select.
pub const CHEVRON_DOWN_ICON: &'static str = "components/select/chevron-down.svg";

/// The chevron of an open select.
pub const CHEVRON_UP_ICON: &'static str = "components/select/chevron-up.svg";

/// The mark of the selected option.
pub const CHECK_ICON: &'static str = "components/checkbox/check.svg";

/// The colour set of the trigger.
#[derive(Clone, Copy, Debug, PartialEq, Eq, Structural)]
pub enum TriggerTone {
    /// The select is disabled.
    Disabled,
    /// The popup is open.
    Open,
    /// Neither.
    Normal,
}

/// The trigger's colours: disabled first, then open.
pub fn trigger_tone(disabled: bool, open: bool) -> (r: TriggerTone)
    ensures
        r == (if disabled {
            TriggerTone::Disabled
        } else if open {
            TriggerTone::Open
        } else {
            TriggerTone::Normal
        }),
{
    if disabled {
        TriggerTone::Disabled
    } else if open {
        TriggerTone::Open
    } else {
        TriggerTone::Normal
    }
}

/// The trigger's chevron: up while the popup is open.
pub fn chevron_icon(open: bool) -> (r: &'static str)
    ensures
        r@ == (if open {
            CHEVRON_UP_ICON@
        } else {
            CHEVRON_DOWN_ICON@
        }),
{
    if open {
        CHEVRON_UP_ICON
    } else {
        CHEVRON_DOWN_ICON
    }
}

/// The colour set of an option row.
#[derive(Clone, Copy, Debug, PartialEq, Eq, Structural)]
pub enum OptionTone {
    /// Disabled (or repeating an earlier id or value).
    Disabled,
    /// The active row of keyboard navigation.
    Active,
    /// The selected option.
    Selected,
    /// None of these.
    Normal,
}

/// What an option row shows and tells assistive technology.
#[derive(Clone, Copy, Debug, PartialEq, Eq, Structural)]
pub struct OptionRenderPlan {
    /// The colours.
    pub tone: OptionTone,
    /// The option is the selected one: it is reported selected and shows the check mark.
    pub selected: bool,
    /// The option is the active descendant.
    pub active: bool,
    /// One-based position among the options.
    pub position_in_set: usize,
    /// Number of options.
    pub size_of_set: usize,
    /// Cursor over the row.
    pub cursor: CursorKind,
    /// Hovering changes the colours.
    pub hover_feedback: bool,
}

/// The render plan of row `index`, an option row: a canonical option with the selected
/// value is selected; the active row is active unless disabled; disabled beats active,
/// which beats selected.
pub open spec fn option_plan_of(
    s: OwnedSelectDataSource,
    index: usize,
    selected_value: Option<u64>,
    active_index: Option<usize>,
) -> Option<OptionRenderPlan> {
    if index < s.entries_spec().len() && s.entries_spec()[index as int] is Option {
        let o = opt_of(s.entries_spec()[index as int]);
        let selected = o.canonical && selected_value == Some(o.value);
        let active = o.canonical && active_index == Some(index) && !o.disabled;
        Some(
            OptionRenderPlan {
                tone: if o.disabled {
                    OptionTone::Disabled
                } else if active {
                    OptionTone::Active
                } else if selected {
                    OptionTone::Selected
                } else {
                    OptionTone::Normal
                },
                selected,
                active,
                position_in_set: (options_before(s.entries_spec(), index as int) + 1) as usize,
                size_of_set: options_before(s.entries_spec(), s.entries_spec().len() as int) as usize,
                cursor: if o.disabled {
                    CursorKind::NotAllowed
                } else {
                    CursorKind::PointingHand
                },
                hover_feedback: !o.disabled,
            },
        )
    } else {
        None
    }
}

/// The render plan of row `index`; `None` for a group row or a row out of range.
pub fn option_render_plan(
    source: &OwnedSelectDataSource,
    index: usize,
    selected_value: Option<u64>,
    active_index: Option<usize>,
) -> (r: Option<OptionRenderPlan>)
    ensures
        r == option_plan_of(*source, index, selected_value, active_index),
{
    let position = match source.option_position(index) {
        Some(p) => p,
        None => return None,
    };
    let o = match source.entry(index) {
        Some(SelectEntry::Option(o)) => o,
        _ => return None,
    };
    let count = source.option_count();
    proof {
        lemma_options_before_grows(source.entries_spec(), index as int + 1, source.entries_spec().len() as int);
    }
    let selected = o.canonical && match selected_value {
        Some(v) => v == o.value,
        None => false,
    };
    let active = o.canonical && !o.disabled && match active_index {
        Some(a) => a == index,
        None => false,
    };
    Some(
        OptionRenderPlan {
            tone: if o.disabled {
                OptionTone::Disabled
            } else if active {
                OptionTone::Active
            } else if selected {
                OptionTone::Selected
            } else {
                OptionTone::Normal
            },
            selected,
            active,
            position_in_set: position + 1,
            size_of_set: count,
            cursor: if o.disabled {
                CursorKind::NotAllowed
            } else {
                CursorKind::PointingHand
            },
            hover_feedback: !o.disabled,
        },
    )
}

/// Counting option rows never goes down as the prefix grows.
proof fn lemma_options_before_grows(es: Seq<SelectEntry>, i: int, j: int)
    requires
        0 <= i <= j,
    ensures
        options_before(es, i) <= options_before(es, j),
    decreases j - i,
{
    if i < j {
        lemma_options_before_grows(es, i, j - 1);
    }
}

/// The value a choice of row `requested` asks the host to select: the option's value,
/// unless it is already the selected value.
pub open spec fn requested_value_of(
    s: OwnedSelectDataSource,
    requested: Option<usize>,
    selected_value: Option<u64>,
) -> Option<u64> {
    match requested {
        Some(i) => if i < s.entries_spec().len() && s.entries_spec()[i as int] is Option
            && selected_value != Some(opt_of(s.entries_spec()[i as int]).value) {
            Some(opt_of(s.entries_spec()[i as int]).value)
        } else {
            None
        },
        None => None,
    }
}

/// The value to hand to the change handler for the chosen row `requested`, if any.
pub fn requested_value(
    source: &OwnedSelectDataSource,
    requested: Option<usize>,
    selected_value: Option<u64>,
) -> (r: Option<u64>)
    ensures
        r == requested_value_of(*source, requested, selected_value),
{
    let i = match requested {
        Some(i) => i,
        None => return None,
    };
    match source.entry(i) {
        Some(SelectEntry::Option(o)) => {
            let same = match selected_value {
                Some(v) => v == o.value,
                None => false,
            };
            if same {
                None
            } else {
                Some(o.value)
            }
        },
        _ => None,
    }
}

/// A click on option row `index`: an option that can be submitted closes the popup and
/// requests its value unless it is already selected; any other click does nothing.
pub fn option_click(
    state: &mut SelectInteraction,
    source: &OwnedSelectDataSource,
    index: usize,
    selected_value: Option<u64>,
) -> (r: Option<u64>)
    ensures
        old(state).core.ready && enabled_row(*source, index) ==> !final(state).core.open
            && final(state).core.active_index == old(state).core.active_index
            && final(state).list == old(state).list
            && r == requested_value_of(*source, Some(index), selected_value),
        !(old(state).core.ready && enabled_row(*source, index)) ==> r is None
            && final(state).core == old(state).core && final(state).list == old(state).list,
{
    if !state.can_submit(source, index) {
        return None;
    }
    let _ = state.close();
    requested_value(source, Some(index), selected_value)
}

/// The colour set of a popup status line.
#[derive(Clone, Copy, Debug, PartialEq, Eq, Structural)]
pub enum StatusTone {
    /// Loading.
    Loading,
    /// Nothing to show.
    Empty,
    /// An error.
    Error,
}

/// How assistive technology treats a popup status line.
#[derive(Clone, Copy, Debug, PartialEq, Eq, Structural)]
pub enum StatusRole {
    /// A polite status.
    Status,
    /// An alert.
    Alert,
}

/// The line a popup shows in place of its options.
#[derive(Debug)]
pub struct StatusLine {
    /// Its colours.
    pub tone: StatusTone,
    /// Its accessibility role.
    pub role: StatusRole,
    /// The mark before the message.
    pub marker: &'static str,
    /// The message, also its accessible name.
    pub message: String,
}

/// The status line of the popup: none while the options show; a loading or empty
/// message is a status marked "…" or "—", an error is an alert marked "!".
pub fn status_line(status: &SelectStatus) -> (r: Option<StatusLine>)
    ensures
        match *status {
            SelectStatus::Ready => r is None,
            SelectStatus::Loading(m) => r matches Some(l) && l.tone == StatusTone::Loading
                && l.role == StatusRole::Status && l.marker@ == "…"@ && l.message@ == m@,
            SelectStatus::Empty(m) => r matches Some(l) && l.tone == StatusTone::Empty
                && l.role == StatusRole::Status && l.marker@ == "—"@ && l.message@ == m@,
            SelectStatus::Error(m) => r matches Some(l) && l.tone == StatusTone::Error
                && l.role == StatusRole::Alert && l.marker@ == "!"@ && l.message@ == m@,
        },
{
    match status {
        SelectStatus::Ready => None,
        SelectStatus::Loading(m) => Some(
            StatusLine {
                tone: StatusTone::Loading,
                role: StatusRole::Status,
                marker: "…",
                message: m.clone(),
            },
        ),
        SelectStatus::Empty(m) => Some(
            StatusLine {
                tone: StatusTone::Empty,
                role: StatusRole::Status,
                marker: "—",
                message: m.clone(),
            },
        ),
        SelectStatus::Error(m) => Some(
            StatusLine {
                tone: StatusTone::Error,
                role: StatusRole::Alert,
                marker: "!",
                message: m.clone(),
            },
        ),
    }
}

} // verus!
