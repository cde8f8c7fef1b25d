//! Radio groups: which radio takes the tab stop, how arrow keys move among the enabled
//! radios, and when a change is requested.
//!
//! The host compares the radios' values with the group's selected value (the values are
//! of the user's type); the decisions here take, for each radio, whether it is disabled
//! and whether its value is the selected one.
use vstd::prelude::*;

use crate::control::Toggled;
use crate::text::utf::same_text;

verus! {

/// The arrow-key rule: up and left go to the previous radio, down and right to the next,
/// wrapping around; home and end go to the first and last.
pub open spec fn navigation_target_of(key: Seq<char>, current: int, len: int) -> Option<int> {
    if len <= 0 {
        None
    } else if key == "up"@ || key == "left"@ {
        Some(if current == 0 { len - 1 } else { current - 1 })
    } else if key == "down"@ || key == "right"@ {
        Some((current + 1) % len)
    } else if key == "home"@ {
        Some(0)
    } else if key == "end"@ {
        Some(len - 1)
    } else {
        None
    }
}

/// The position that `key` moves to from `current` among `len` enabled radios.
pub fn navigation_target(key: &str, current: usize, len: usize) -> (r: Option<usize>)
    requires
        current < usize::MAX,
    ensures
        match navigation_target_of(key@, current as int, len as int) {
            Some(t) => r == Some(t as usize) && 0 <= t && (current < len ==> t < len),
            None => r is None,
        },
{
    if len == 0 {
        return None;
    }
    if same_text(key, "up") || same_text(key, "left") {
        Some(if current == 0 {
            len - 1
        } else {
            current - 1
        })
    } else if same_text(key, "down") || same_text(key, "right") {
        Some((current + 1) % len)
    } else if same_text(key, "home") {
        Some(0)
    } else if same_text(key, "end") {
        Some(len - 1)
    } else {
        None
    }
}

/// Navigation stays among the enabled radios, and a step down followed by a step up
/// (or the reverse) comes back to where it started.
pub proof fn lemma_navigation_round_trip(current: int, len: int)
    requires
        0 <= current < len,
    ensures
        ({
            let down = navigation_target_of("down"@, current, len).unwrap();
            let up = navigation_target_of("up"@, current, len).unwrap();
            &&& 0 <= down < len
            &&& 0 <= up < len
            &&& navigation_target_of("up"@, down, len) == Some(current)
            &&& navigation_target_of("down"@, up, len) == Some(current)
        }),
{
    reveal_strlit("down");
    reveal_strlit("up");
    reveal_strlit("left");
    reveal_strlit("right");
    assert("down"@[0] == 'd' && "up"@[0] == 'u' && "left"@[0] == 'l' && "right"@[0] == 'r');
    assert("down"@ != "up"@ && "down"@ != "left"@);
    assert("up"@ != "left"@ && "up"@ != "right"@);
    vstd::arithmetic::div_mod::lemma_mod_self_0(len);
    if current + 1 < len {
        vstd::arithmetic::div_mod::lemma_small_mod((current + 1) as nat, len as nat);
    }
    if current > 0 {
        vstd::arithmetic::div_mod::lemma_small_mod(current as nat, len as nat);
    }
}

/// The toggle state of a radio.
pub fn toggled_state(selected: bool) -> (r: Toggled)
    ensures
        r == (if selected {
            Toggled::True
        } else {
            Toggled::False
        }),
{
    if selected {
        Toggled::True
    } else {
        Toggled::False
    }
}

/// How a radio group is laid out and reported.
#[derive(Clone, Copy, Debug, PartialEq, Eq, Structural)]
pub enum Orientation {
    /// In a row.
    Horizontal,
    /// In a column; the default.
    Vertical,
}

/// The keyboard and focus layout of a radio group.
pub struct RadioGroupPlan {
    /// For each radio, whether it is disabled (by itself or by the group).
    pub effective_disabled: Vec<bool>,
    /// The radio that takes the tab stop, if any is enabled.
    pub tab_stop: Option<usize>,
    /// The indices of the enabled radios, in order.
    pub enabled: Vec<usize>,
}

/// `enabled` lists, in order, exactly the indices `i < n` with `!disabled[i]`.
pub open spec fn lists_enabled(disabled: Seq<bool>, enabled: Seq<usize>) -> bool {
    &&& forall|k: int| 0 <= k < enabled.len() ==> #[trigger] enabled[k] < disabled.len() && !disabled[enabled[k] as int]
    &&& forall|k1: int, k2: int| 0 <= k1 < k2 < enabled.len() ==> enabled[k1] < enabled[k2]
    &&& forall|i: int| 0 <= i < disabled.len() && !#[trigger] disabled[i] ==> enabled.contains(i as usize)
}

/// The tab stop: the first enabled selected radio, else the first enabled radio.
pub open spec fn is_tab_stop(disabled: Seq<bool>, selected: Seq<bool>, t: Option<usize>) -> bool {
    let enabled_selected = exists|i: int| 0 <= i < disabled.len() && !disabled[i] && selected[i];
    let any_enabled = exists|i: int| 0 <= i < disabled.len() && !disabled[i];
    match t {
        Some(t) => {
            &&& t < disabled.len()
            &&& !disabled[t as int]
            &&& if enabled_selected {
                &&& selected[t as int]
                &&& forall|i: int| 0 <= i < t ==> !(!disabled[i] && selected[i])
            } else {
                forall|i: int| 0 <= i < t ==> disabled[i]
            }
        },
        None => !any_enabled,
    }
}

/// The focus layout of a group: a radio is disabled when the group or the radio is;
/// `selected[i]` says whether radio `i` holds the selected value.
pub fn radio_group_plan(group_disabled: bool, radio_disabled: &Vec<bool>, selected: &Vec<bool>) -> (r:
    RadioGroupPlan)
    requires
        selected@.len() == radio_disabled@.len(),
    ensures
        r.effective_disabled@.len() == radio_disabled@.len(),
        forall|i: int|
            0 <= i < radio_disabled@.len() ==> #[trigger] r.effective_disabled@[i] == (group_disabled
                || radio_disabled@[i]),
        lists_enabled(r.effective_disabled@, r.enabled@),
        is_tab_stop(r.effective_disabled@, selected@, r.tab_stop),
{
    let n = radio_disabled.len();
    let mut disabled: Vec<bool> = Vec::new();
    let mut enabled: Vec<usize> = Vec::new();
    let mut first_enabled: Option<usize> = None;
    let mut first_selected: Option<usize> = None;
    let mut i: usize = 0;
    while i < n
        invariant
            n == radio_disabled@.len(),
            selected@.len() == n,
            i <= n,
            disabled@.len() == i,
            forall|j: int| 0 <= j < i ==> #[trigger] disabled@[j] == (group_disabled || radio_disabled@[j]),
            forall|k: int| 0 <= k < enabled@.len() ==> #[trigger] enabled@[k] < i && !disabled@[enabled@[k] as int],
            forall|k1: int, k2: int| 0 <= k1 < k2 < enabled@.len() ==> enabled@[k1] < enabled@[k2],
            forall|j: int| 0 <= j < i && !#[trigger] disabled@[j] ==> enabled@.contains(j as usize),
            match first_enabled {
                Some(t) => t < i && !disabled@[t as int] && forall|j: int| 0 <= j < t ==> disabled@[j],
                None => forall|j: int| 0 <= j < i ==> disabled@[j],
            },
            match first_selected {
                Some(t) => t < i && !disabled@[t as int] && selected@[t as int] && forall|j: int|
                    0 <= j < t ==> !(!disabled@[j] && selected@[j]),
                None => forall|j: int| 0 <= j < i ==> !(!disabled@[j] && selected@[j]),
            },
        decreases n - i,
    {
        let d = group_disabled || radio_disabled[i];
        disabled.push(d);
        if !d {
            let ghost before = enabled@;
            enabled.push(i);
            proof {
                assert forall|j: int| 0 <= j < i + 1 && !#[trigger] disabled@[j] implies enabled@.contains(
                    j as usize,
                ) by {
                    if j < i {
                        let k = choose|k: int| 0 <= k < before.len() && before[k] == j as usize;
                        assert(enabled@[k] == j as usize);
                    } else {
                        assert(enabled@[before.len() as int] == j as usize);
                    }
                }
            }
            if first_enabled.is_none() {
                first_enabled = Some(i);
            }
            if first_selected.is_none() && selected[i] {
                first_selected = Some(i);
            }
        }
        i += 1;
    }
    let tab_stop = match first_selected {
        Some(t) => Some(t),
        None => first_enabled,
    };
    RadioGroupPlan { effective_disabled: disabled, tab_stop, enabled }
}

/// Position of radio `index` among the enabled radios, if it is enabled.
pub fn enabled_position(enabled: &Vec<usize>, index: usize) -> (r: Option<usize>)
    ensures
        match r {
            Some(p) => p < enabled@.len() && enabled@[p as int] == index && forall|k: int|
                0 <= k < p ==> enabled@[k] != index,
            None => !enabled@.contains(index),
        },
{
    let mut k: usize = 0;
    while k < enabled.len()
        invariant
            k <= enabled@.len(),
            forall|j: int| 0 <= j < k ==> enabled@[j] != index,
        decreases enabled@.len() - k,
    {
        if enabled[k] == index {
            return Some(k);
        }
        k += 1;
    }
    None
}

/// What a key press on a radio asks of the host.
#[derive(Clone, Copy, Debug, PartialEq, Eq, Structural)]
pub enum RadioKeyOutcome {
    /// Not handled.
    Ignore,
    /// Space: swallowed on press (the change is requested on release).
    Swallow,
    /// Swallow the key, focus the radio at this index and request its value.
    MoveTo(usize),
}

/// The answer of the radio at `index` to a key: a disabled radio answers no key; an
/// enabled one swallows Space, and moves to the enabled radio a navigation key designates.
pub open spec fn radio_key_outcome(enabled: Seq<usize>, index: usize, key: Seq<char>, no_modifiers: bool) -> RadioKeyOutcome {
    if !no_modifiers {
        RadioKeyOutcome::Ignore
    } else {
        match enabled.index_of_first(index) {
            Some(p) => if key == "space"@ {
                RadioKeyOutcome::Swallow
            } else {
                match navigation_target_of(key, p, enabled.len() as int) {
                    Some(q) => RadioKeyOutcome::MoveTo(enabled[q]),
                    None => RadioKeyOutcome::Ignore,
                }
            },
            None => RadioKeyOutcome::Ignore,
        }
    }
}

/// How the radio at `index` answers a key press.
pub fn radio_key_down(plan: &RadioGroupPlan, index: usize, key: &str, no_modifiers: bool) -> (r:
    RadioKeyOutcome)
    requires
        lists_enabled(plan.effective_disabled@, plan.enabled@),
    ensures
        r == radio_key_outcome(plan.enabled@, index, key@, no_modifiers),
{
    if !no_modifiers {
        return RadioKeyOutcome::Ignore;
    }
    let current = enabled_position(&plan.enabled, index);
    proof {
        plan.enabled@.index_of_first_ensures(index);
        match current {
            Some(p) => {
                lemma_index_of_first_increasing(plan.enabled@, p as int);
            },
            None => {},
        }
    }
    let current = match current {
        Some(p) => p,
        None => return RadioKeyOutcome::Ignore,
    };
    if same_text(key, "space") {
        return RadioKeyOutcome::Swallow;
    }
    match navigation_target(key, current, plan.enabled.len()) {
        Some(t) => RadioKeyOutcome::MoveTo(plan.enabled[t]),
        None => RadioKeyOutcome::Ignore,
    }
}

/// Whether a key released on an enabled radio chooses it: Space without modifiers does
/// (the key is then swallowed and the radio's value requested, see
/// `should_request_change`); any other release is left alone.
pub fn radio_key_up(key: &str, no_modifiers: bool) -> (r: bool)
    ensures
        r == (key@ == "space"@ && no_modifiers),
{
    no_modifiers && same_text(key, "space")
}

/// In an increasing sequence, an element's first index is its index.
pub proof fn lemma_index_of_first_increasing(v: Seq<usize>, t: int)
    requires
        0 <= t < v.len(),
        forall|k1: int, k2: int| 0 <= k1 < k2 < v.len() ==> v[k1] < v[k2],
    ensures
        v.index_of_first(v[t]) == Some(t),
{
    v.index_of_first_ensures(v[t]);
    match v.index_of_first(v[t]) {
        Some(k) => {
            if k < t {
                assert(v[k] < v[t]);
            }
        },
        None => {
            assert(v.contains(v[t]));
        },
    }
}

/// A change is requested for a radio unless its value is already the selected one.
pub fn should_request_change(requested_is_selected: bool, has_handler: bool) -> (r: bool)
    ensures
        r == (!requested_is_selected && has_handler),
{
    !requested_is_selected && has_handler
}


/// A disabled radio answers no key, and a key moves only to an enabled radio: disabled
/// radios are never reached by arrow keys.
pub proof fn lemma_keys_reach_enabled_radios(
    disabled: Seq<bool>,
    enabled: Seq<usize>,
    index: usize,
    key: Seq<char>,
    no_modifiers: bool,
)
    requires
        lists_enabled(disabled, enabled),
    ensures
        index < disabled.len() && disabled[index as int] ==> radio_key_outcome(
            enabled,
            index,
            key,
            no_modifiers,
        ) == RadioKeyOutcome::Ignore,
        radio_key_outcome(enabled, index, key, no_modifiers) matches RadioKeyOutcome::MoveTo(t)
            ==> t < disabled.len() && !disabled[t as int],
{
    enabled.index_of_first_ensures(index);
    match enabled.index_of_first(index) {
        Some(p) => {
            assert(enabled[p] == index);
            if no_modifiers && key != "space"@ {
                match navigation_target_of(key, p, enabled.len() as int) {
                    Some(q) => {
                        assert(enabled[q] < disabled.len() && !disabled[enabled[q] as int]);
                    },
                    None => {},
                }
            }
        },
        None => {},
    }
}

} // verus!
