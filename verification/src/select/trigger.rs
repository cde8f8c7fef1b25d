//! The select's trigger: what a key or a click on it does, the text a key types, and
//! what the trigger tells assistive technology.
use vstd::prelude::*;

use super::source::{opt_of, OwnedSelectDataSource};
use super::state::{
    enabled_row, opened_active, opened_core, revealed_scroll, ActiveMovement, SelectCore,
    SelectInteraction,
};
use super::types::{option_name, SelectEntry};
use crate::input::keys::Modifiers;
use crate::text::segment::{grapheme_starts, grapheme_starts_of};
use crate::text::utf::{chars_of, same_text};

verus! {

/// The character is a control character (general category Cc).
pub open spec fn is_control(c: char) -> bool {
    let v = c as u32;
    v <= 0x1F || (0x7F <= v && v <= 0x9F)
}

/// Whether `c` is a control character.
pub fn char_is_control(c: char) -> (r: bool)
    ensures
        r == is_control(c),
{
    let v = c as u32;
    v <= 0x1F || (0x7F <= v && v <= 0x9F)
}

/// The text holds a control character.
pub open spec fn has_control(s: Seq<char>) -> bool {
    exists|i: int| 0 <= i < s.len() && #[trigger] is_control(s[i])
}

/// Whether `s` holds a control character.
pub fn any_control(s: &str) -> (r: bool)
    ensures
        r == has_control(s@),
{
    let cs = chars_of(s);
    let mut i: usize = 0;
    while i < cs.len()
        invariant
            cs@ == s@,
            i <= cs@.len(),
            forall|j: int| 0 <= j < i ==> !#[trigger] is_control(s@[j]),
        decreases cs@.len() - i,
    {
        if char_is_control(cs[i]) {
            assert(is_control(s@[i as int]));
            return true;
        }
        i += 1;
    }
    false
}

/// The text a key types into the type-ahead, if any: nothing with Control, Alt, the
/// platform key or Function held; the key's own text when it has one without control
/// characters; a space for the space key; else the key's name when it is a single
/// grapheme cluster without control characters.
pub open spec fn typeahead_text_of(key: Seq<char>, key_char: Option<Seq<char>>, m: Modifiers) -> Option<Seq<char>> {
    if m.control || m.alt || m.platform || m.function {
        None
    } else if key_char matches Some(t) && !has_control(t) {
        key_char
    } else if key == "space"@ {
        Some(" "@)
    } else if grapheme_starts_of(key).len() == 1 && !has_control(key) {
        Some(key)
    } else {
        None
    }
}

/// The optional text, as characters.
pub open spec fn opt_text(t: Option<String>) -> Option<Seq<char>> {
    match t {
        Some(s) => Some(s@),
        None => None,
    }
}

/// The text a key types into the type-ahead.
pub fn typeahead_text(key: &str, key_char: Option<&str>, m: Modifiers) -> (r: Option<String>)
    ensures
        opt_text(r) == typeahead_text_of(
            key@,
            match key_char {
                Some(t) => Some(t@),
                None => None,
            },
            m,
        ),
{
    if m.control || m.alt || m.platform || m.function {
        return None;
    }
    match key_char {
        Some(t) => {
            if !any_control(t) {
                return Some(t.to_string());
            }
        },
        None => {},
    }
    if same_text(key, "space") {
        return Some(" ".to_string());
    }
    let starts = grapheme_starts(key);
    if starts.len() == 1 && !any_control(key) {
        Some(key.to_string())
    } else {
        None
    }
}

/// What a key pressed on the trigger does.
#[derive(Debug)]
pub enum TriggerKeyAction {
    /// Tab (alone or with Shift) closes the popup and moves focus on (not swallowed).
    CloseForTab,
    /// The text goes to the type-ahead (swallowed if an option matched).
    Typeahead(String),
    /// Down or Up on a closed popup opens it at the first or (from the end) last option.
    Open(bool),
    /// A movement of the active option in the open popup.
    Move(ActiveMovement),
    /// Escape closes the open popup.
    Close,
    /// Nothing.
    Ignore,
}

/// No modifier is held.
pub open spec fn no_modifiers(m: Modifiers) -> bool {
    !m.control && !m.alt && !m.shift && !m.platform && !m.function
}

/// Only Shift is held.
pub open spec fn shift_only(m: Modifiers) -> bool {
    !m.control && !m.alt && m.shift && !m.platform && !m.function
}

/// The action of the key named `key` (typing `key_char`) on a trigger whose popup is
/// `open`.
pub open spec fn trigger_key_action_of(key: Seq<char>, key_char: Option<Seq<char>>, m: Modifiers, open: bool) -> Option<ActiveMovement> {
    if !open || !no_modifiers(m) {
        None
    } else if key == "down"@ {
        Some(ActiveMovement::Next)
    } else if key == "up"@ {
        Some(ActiveMovement::Previous)
    } else if key == "home"@ {
        Some(ActiveMovement::First)
    } else if key == "end"@ {
        Some(ActiveMovement::Last)
    } else if key == "pageup"@ {
        Some(ActiveMovement::PagePrevious)
    } else if key == "pagedown"@ {
        Some(ActiveMovement::PageNext)
    } else {
        None
    }
}

/// What a key that types no text does on a trigger whose popup is `open`: without
/// modifiers Down and Up open a closed popup (Up from the end), Escape closes an open one
/// and the navigation keys move its active option; anything else does nothing.
pub open spec fn trigger_nav_action(key: Seq<char>, m: Modifiers, open: bool) -> TriggerKeyAction {
    if !no_modifiers(m) {
        TriggerKeyAction::Ignore
    } else if !open && key == "down"@ {
        TriggerKeyAction::Open(false)
    } else if !open && key == "up"@ {
        TriggerKeyAction::Open(true)
    } else if open && key == "escape"@ {
        TriggerKeyAction::Close
    } else {
        match trigger_key_action_of(key, None, m, open) {
            Some(mv) => TriggerKeyAction::Move(mv),
            None => TriggerKeyAction::Ignore,
        }
    }
}

/// The trigger's navigation keys without modifiers: on an open popup Down and Up move the
/// active option to the next and the previous enabled option, Home and End to the first
/// and the last, Page Down and Page Up by a page, and Escape closes it; on a closed popup
/// Down opens it at the start and Up at the end. Any modifier makes these keys do
/// nothing, and opposite keys never do the same.
pub proof fn lemma_trigger_navigation_keys(m: Modifiers)
    ensures
        no_modifiers(m) ==> {
            &&& trigger_nav_action("down"@, m, true) == TriggerKeyAction::Move(ActiveMovement::Next)
            &&& trigger_nav_action("up"@, m, true) == TriggerKeyAction::Move(ActiveMovement::Previous)
            &&& trigger_nav_action("home"@, m, true) == TriggerKeyAction::Move(ActiveMovement::First)
            &&& trigger_nav_action("end"@, m, true) == TriggerKeyAction::Move(ActiveMovement::Last)
            &&& trigger_nav_action("pageup"@, m, true) == TriggerKeyAction::Move(ActiveMovement::PagePrevious)
            &&& trigger_nav_action("pagedown"@, m, true) == TriggerKeyAction::Move(ActiveMovement::PageNext)
            &&& trigger_nav_action("escape"@, m, true) == TriggerKeyAction::Close
            &&& trigger_nav_action("down"@, m, false) == TriggerKeyAction::Open(false)
            &&& trigger_nav_action("up"@, m, false) == TriggerKeyAction::Open(true)
            &&& trigger_nav_action("escape"@, m, false) == TriggerKeyAction::Ignore
            &&& trigger_nav_action("home"@, m, false) == TriggerKeyAction::Ignore
        },
        !no_modifiers(m) ==> forall|k: Seq<char>, open: bool|
            #[trigger] trigger_nav_action(k, m, open) == TriggerKeyAction::Ignore,
        forall|open: bool|
            #[trigger] trigger_nav_action("up"@, m, open) == trigger_nav_action("down"@, m, open)
                ==> trigger_nav_action("up"@, m, open) == TriggerKeyAction::Ignore,
        forall|open: bool|
            #[trigger] trigger_nav_action("home"@, m, open) == trigger_nav_action("end"@, m, open)
                ==> trigger_nav_action("home"@, m, open) == TriggerKeyAction::Ignore,
{
    reveal_strlit("down");
    reveal_strlit("up");
    reveal_strlit("home");
    reveal_strlit("end");
    reveal_strlit("pageup");
    reveal_strlit("pagedown");
    reveal_strlit("escape");
    assert("down"@.len() == 4 && "up"@.len() == 2 && "home"@.len() == 4 && "end"@.len() == 3
        && "pageup"@.len() == 6 && "pagedown"@.len() == 8 && "escape"@.len() == 6);
    assert("down"@[0] != "home"@[0] && "pageup"@[0] != "escape"@[0]);
    assert("home"@ != "down"@ && "escape"@ != "pageup"@ && "up"@ != "down"@);
}

/// What a key pressed on the trigger does: Tab first, then type-ahead text, then (without
/// modifiers) the navigation keys.
pub fn trigger_key_action(key: &str, key_char: Option<&str>, m: Modifiers, open: bool) -> (r:
    TriggerKeyAction)
    ensures
        key@ == "tab"@ && (no_modifiers(m) || shift_only(m)) ==> r is CloseForTab,
        !(key@ == "tab"@ && (no_modifiers(m) || shift_only(m))) ==> {
            let text = typeahead_text_of(
                key@,
                match key_char {
                    Some(t) => Some(t@),
                    None => None,
                },
                m,
            );
            match text {
                Some(t) => r matches TriggerKeyAction::Typeahead(s) && s@ == t,
                None => r == trigger_nav_action(key@, m, open),
            }
        },
{
    let plain = !m.control && !m.alt && !m.shift && !m.platform && !m.function;
    let shift = !m.control && !m.alt && m.shift && !m.platform && !m.function;
    if same_text(key, "tab") && (plain || shift) {
        return TriggerKeyAction::CloseForTab;
    }
    match typeahead_text(key, key_char, m) {
        Some(t) => {
            return TriggerKeyAction::Typeahead(t);
        },
        None => {},
    }
    if !plain {
        return TriggerKeyAction::Ignore;
    }
    if !open {
        if same_text(key, "down") {
            return TriggerKeyAction::Open(false);
        }
        if same_text(key, "up") {
            return TriggerKeyAction::Open(true);
        }
        return TriggerKeyAction::Ignore;
    }
    if same_text(key, "escape") {
        proof {
            reveal_strlit("escape");
            reveal_strlit("down");
            reveal_strlit("up");
            reveal_strlit("home");
            reveal_strlit("end");
            reveal_strlit("pageup");
            reveal_strlit("pagedown");
        }
        return TriggerKeyAction::Close;
    }
    if same_text(key, "down") {
        TriggerKeyAction::Move(ActiveMovement::Next)
    } else if same_text(key, "up") {
        TriggerKeyAction::Move(ActiveMovement::Previous)
    } else if same_text(key, "home") {
        TriggerKeyAction::Move(ActiveMovement::First)
    } else if same_text(key, "end") {
        TriggerKeyAction::Move(ActiveMovement::Last)
    } else if same_text(key, "pageup") {
        TriggerKeyAction::Move(ActiveMovement::PagePrevious)
    } else if same_text(key, "pagedown") {
        TriggerKeyAction::Move(ActiveMovement::PageNext)
    } else {
        TriggerKeyAction::Ignore
    }
}

/// A click on the trigger. From the keyboard on an open popup it submits the active
/// option: the popup closes and the row to request is returned (the host requests its
/// value unless it is already selected). From the keyboard on a closed popup it opens at
/// the selected option and scrolls to it; a pointer click toggles the popup.
pub fn trigger_click(
    state: &mut SelectInteraction,
    source: &OwnedSelectDataSource,
    from_keyboard: bool,
    selected: Option<usize>,
) -> (requested: Option<usize>)
    ensures
        old(state).core.open ==> final(state).core == (SelectCore { open: false, ..old(state).core })
            && final(state).list == old(state).list,
        from_keyboard && old(state).core.open ==> requested == (match old(state).core.active_index {
            Some(a) => if old(state).core.ready && enabled_row(*source, a) {
                Some(a)
            } else {
                None
            },
            None => None,
        }),
        !(from_keyboard && old(state).core.open) ==> requested is None,
        !old(state).core.open && old(state).core.ready ==> final(state).core == opened_core(
            old(state).core,
            *source,
            selected,
            false,
        ) && final(state).list.deferred_scroll == (if from_keyboard {
            revealed_scroll(old(state).list, opened_active(old(state).core, *source, selected, false))
        } else {
            old(state).list.deferred_scroll
        }),
        !old(state).core.open && !old(state).core.ready ==> final(state).core == (SelectCore {
            open: true,
            active_index: None,
            active_key: None,
            ..old(state).core
        }) && final(state).list == old(state).list,
        final(state).typeahead_buffer == old(state).typeahead_buffer,
{
    if from_keyboard && state.core.open {
        let requested = state.submittable_active_index(source);
        let _ = state.close();
        return requested;
    }
    if from_keyboard {
        state.open_with(source, selected, false, true);
    } else if state.core.open {
        let _ = state.close();
    } else {
        state.open_with(source, selected, false, false);
    }
    None
}

/// The value and placeholder the trigger reports: the selected option's name, else the
/// placeholder.
pub fn trigger_accessibility(selected_name: Option<&str>, placeholder: &str) -> (r: (
    Option<String>,
    Option<String>,
))
    ensures
        match selected_name {
            Some(n) => r.0 matches Some(v) && v@ == n@ && r.1 is None,
            None => r.0 is None && (r.1 matches Some(p) && p@ == placeholder@),
        },
{
    match selected_name {
        Some(n) => (Some(n.to_string()), None),
        None => (None, Some(placeholder.to_string())),
    }
}

/// The trigger's accessible name: its own, else the selected option's label, else the
/// placeholder.
pub fn trigger_name(aria_label: Option<&str>, display_label: Option<&str>, placeholder: &str) -> (r:
    String)
    ensures
        r@ == (match aria_label {
            Some(a) => a@,
            None => match display_label {
                Some(d) => d@,
                None => placeholder@,
            },
        }),
{
    match aria_label {
        Some(a) => a.to_string(),
        None => match display_label {
            Some(d) => d.to_string(),
            None => placeholder.to_string(),
        },
    }
}

/// The row of the selected value: the canonical option with that value; and whether it
/// is enabled (only an enabled selected option is preferred when the popup opens).
pub fn selected_row(source: &OwnedSelectDataSource, selected_value: Option<u64>) -> (r: (
    Option<usize>,
    bool,
))
    ensures
        match selected_value {
            None => r.0 is None && !r.1,
            Some(v) => match r.0 {
                Some(i) => i < source.entries_spec().len() && source.entries_spec()[i as int] is Option
                    && opt_of(source.entries_spec()[i as int]).canonical && opt_of(
                    source.entries_spec()[i as int],
                ).value == v && r.1 == enabled_row(*source, i),
                None => !r.1 && forall|j: int|
                    0 <= j < source.entries_spec().len() && #[trigger] source.entries_spec()[j] is Option
                        && opt_of(source.entries_spec()[j]).canonical ==> opt_of(
                        source.entries_spec()[j],
                    ).value != v,
            },
        },
{
    match selected_value {
        None => (None, false),
        Some(v) => match source.index_of_value(v) {
            Some(i) => (Some(i), source.is_enabled(i)),
            None => (None, false),
        },
    }
}

} // verus!
