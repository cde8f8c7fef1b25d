//! Activation rules shared by the clickable controls: which pointer and key events a
//! control answers, which of them activate it, and the cursor it shows.
use vstd::prelude::*;

verus! {

/// Toggle state exposed to assistive technology.
#[derive(Clone, Copy, Debug, PartialEq, Eq, Structural)]
pub enum Toggled {
    /// Off.
    False,
    /// On.
    True,
    /// Partly on.
    Mixed,
}

/// The key that activated a control from the keyboard.
#[derive(Clone, Copy, Debug, PartialEq, Eq, Structural)]
pub enum KeyboardButton {
    /// The Enter key.
    Enter,
    /// The Space key.
    Space,
}

/// A key, as far as activation is concerned.
#[derive(Clone, Copy, Debug, PartialEq, Eq, Structural)]
pub enum ActivationKey {
    /// Enter without modifiers.
    Enter,
    /// Space without modifiers.
    Space,
    /// Any other key, or Enter or Space with modifiers.
    Other,
}

/// Mouse cursor shown over a control.
#[derive(Clone, Copy, Debug, PartialEq, Eq, Structural)]
pub enum CursorKind {
    /// The plain arrow.
    Arrow,
    /// The pointing hand of clickable things.
    PointingHand,
    /// The text cursor.
    IBeam,
    /// The "not allowed" cursor of disabled controls.
    NotAllowed,
}

/// How a control answers an event: whether the event's default is prevented, whether its
/// propagation stops, and whether the control is activated (and by which key).
#[derive(Clone, Copy, Debug, PartialEq, Eq, Structural)]
pub struct EventResponse {
    /// The event's default action is prevented.
    pub prevent_default: bool,
    /// The event does not reach the parents.
    pub stop_propagation: bool,
    /// The control's handler runs (`Some(None)` for a pointer click).
    pub activate: Option<Option<KeyboardButton>>,
}

/// The response that leaves an event alone.
pub open spec fn ignored() -> EventResponse {
    EventResponse { prevent_default: false, stop_propagation: false, activate: None }
}

/// The response that swallows an event without activating.
pub open spec fn swallowed() -> EventResponse {
    EventResponse { prevent_default: true, stop_propagation: true, activate: None }
}

/// Which keys activate a kind of control, and when.
#[derive(Clone, Copy, Debug, PartialEq, Eq, Structural)]
pub struct KeyPolicy {
    /// Enter activates when pressed (not on auto-repeat).
    pub enter_on_press: bool,
    /// Space activates when released (its press is swallowed).
    pub space_on_release: bool,
    /// With a handler, Enter is swallowed on press and release without activating.
    pub block_enter: bool,
}

/// The keys of buttons: Enter on press, Space on release.
pub open spec fn button_policy() -> KeyPolicy {
    KeyPolicy { enter_on_press: true, space_on_release: true, block_enter: false }
}

/// Keys of buttons: Enter on press, Space on release.
pub fn button_keys() -> (r: KeyPolicy)
    ensures
        r == button_policy(),
{
    KeyPolicy { enter_on_press: true, space_on_release: true, block_enter: false }
}

/// Keys of checkboxes: Space on release only.
pub fn checkbox_keys() -> (r: KeyPolicy)
    ensures
        r == (KeyPolicy { enter_on_press: false, space_on_release: true, block_enter: false }),
{
    KeyPolicy { enter_on_press: false, space_on_release: true, block_enter: false }
}

/// Keys of switches: Enter is swallowed; pointer and Space clicks come through the host's
/// own click handling.
pub fn switch_keys() -> (r: KeyPolicy)
    ensures
        r == (KeyPolicy { enter_on_press: false, space_on_release: false, block_enter: true }),
{
    KeyPolicy { enter_on_press: false, space_on_release: false, block_enter: true }
}

/// Response to a key press. A busy control swallows Enter and Space; a control with a
/// handler (already filtered for disabled and busy by the caller) answers the keys of its
/// policy.
pub open spec fn key_down_response(
    policy: KeyPolicy,
    busy: bool,
    has_handler: bool,
    key: ActivationKey,
    repeat: bool,
) -> EventResponse {
    if key is Other {
        ignored()
    } else if busy {
        swallowed()
    } else if !has_handler {
        ignored()
    } else if key is Enter {
        if policy.enter_on_press && !repeat {
            EventResponse {
                prevent_default: true,
                stop_propagation: true,
                activate: Some(Some(KeyboardButton::Enter)),
            }
        } else if policy.block_enter {
            swallowed()
        } else {
            ignored()
        }
    } else if policy.space_on_release {
        swallowed()
    } else {
        ignored()
    }
}

/// Response to a key release.
pub open spec fn key_up_response(policy: KeyPolicy, busy: bool, has_handler: bool, key: ActivationKey) -> EventResponse {
    if key is Other {
        ignored()
    } else if busy {
        swallowed()
    } else if !has_handler {
        ignored()
    } else if key is Space {
        if policy.space_on_release {
            EventResponse {
                prevent_default: true,
                stop_propagation: true,
                activate: Some(Some(KeyboardButton::Space)),
            }
        } else {
            ignored()
        }
    } else if policy.block_enter {
        swallowed()
    } else {
        ignored()
    }
}

/// How a control answers a key press.
pub fn key_down(policy: KeyPolicy, busy: bool, has_handler: bool, key: ActivationKey, repeat: bool) -> (r:
    EventResponse)
    ensures
        r == key_down_response(policy, busy, has_handler, key, repeat),
{
    let ignore = EventResponse { prevent_default: false, stop_propagation: false, activate: None };
    let swallow = EventResponse { prevent_default: true, stop_propagation: true, activate: None };
    match key {
        ActivationKey::Other => ignore,
        _ => {
            if busy {
                swallow
            } else if !has_handler {
                ignore
            } else {
                match key {
                    ActivationKey::Enter => {
                        if policy.enter_on_press && !repeat {
                            EventResponse {
                                prevent_default: true,
                                stop_propagation: true,
                                activate: Some(Some(KeyboardButton::Enter)),
                            }
                        } else if policy.block_enter {
                            swallow
                        } else {
                            ignore
                        }
                    },
                    _ => {
                        if policy.space_on_release {
                            swallow
                        } else {
                            ignore
                        }
                    },
                }
            }
        },
    }
}

/// How a control answers a key release.
pub fn key_up(policy: KeyPolicy, busy: bool, has_handler: bool, key: ActivationKey) -> (r: EventResponse)
    ensures
        r == key_up_response(policy, busy, has_handler, key),
{
    let ignore = EventResponse { prevent_default: false, stop_propagation: false, activate: None };
    let swallow = EventResponse { prevent_default: true, stop_propagation: true, activate: None };
    match key {
        ActivationKey::Other => ignore,
        _ => {
            if busy {
                swallow
            } else if !has_handler {
                ignore
            } else {
                match key {
                    ActivationKey::Space => {
                        if policy.space_on_release {
                            EventResponse {
                                prevent_default: true,
                                stop_propagation: true,
                                activate: Some(Some(KeyboardButton::Space)),
                            }
                        } else {
                            ignore
                        }
                    },
                    _ => {
                        if policy.block_enter {
                            swallow
                        } else {
                            ignore
                        }
                    },
                }
            }
        },
    }
}

/// How a control answers a left-button press: a busy control swallows it; one with a
/// handler keeps the press from moving focus elsewhere (prevents its default).
pub fn pointer_down(busy: bool, has_handler: bool) -> (r: EventResponse)
    ensures
        r == (if busy {
            swallowed()
        } else if has_handler {
            EventResponse { prevent_default: true, stop_propagation: false, activate: None }
        } else {
            ignored()
        }),
{
    if busy {
        EventResponse { prevent_default: true, stop_propagation: true, activate: None }
    } else if has_handler {
        EventResponse { prevent_default: true, stop_propagation: false, activate: None }
    } else {
        EventResponse { prevent_default: false, stop_propagation: false, activate: None }
    }
}

/// How a control answers a click: a busy control swallows it; one with a handler stops
/// it and activates.
pub fn click(busy: bool, has_handler: bool) -> (r: EventResponse)
    ensures
        r == (if busy {
            swallowed()
        } else if has_handler {
            EventResponse { prevent_default: false, stop_propagation: true, activate: Some(None) }
        } else {
            ignored()
        }),
{
    if busy {
        EventResponse { prevent_default: true, stop_propagation: true, activate: None }
    } else if has_handler {
        EventResponse { prevent_default: false, stop_propagation: true, activate: Some(None) }
    } else {
        EventResponse { prevent_default: false, stop_propagation: false, activate: None }
    }
}

/// The cursor over a control: "not allowed" when disabled, else the explicit one, else an
/// arrow while busy and a pointing hand otherwise.
pub fn resolved_cursor_style(disabled: bool, busy: bool, explicit: Option<CursorKind>) -> (r:
    CursorKind)
    ensures
        r == (if disabled {
            CursorKind::NotAllowed
        } else {
            match explicit {
                Some(c) => c,
                None => if busy {
                    CursorKind::Arrow
                } else {
                    CursorKind::PointingHand
                },
            }
        }),
{
    if disabled {
        CursorKind::NotAllowed
    } else {
        match explicit {
            Some(c) => c,
            None => if busy {
                CursorKind::Arrow
            } else {
                CursorKind::PointingHand
            },
        }
    }
}

/// The accessible name of a labelled control (a switch, a radio): its explicit accessible
/// label, else its visible label.
pub fn accessible_name(aria_label: Option<&str>, label: Option<&str>) -> (r: Option<String>)
    ensures
        match aria_label {
            Some(a) => r matches Some(n) && n@ == a@,
            None => match label {
                Some(l) => r matches Some(n) && n@ == l@,
                None => r is None,
            },
        },
{
    match aria_label {
        Some(a) => Some(a.to_string()),
        None => match label {
            Some(l) => Some(l.to_string()),
            None => None,
        },
    }
}

/// A control without a handler (a disabled control has none) never activates from a key.
pub proof fn lemma_no_handler_never_activates(policy: KeyPolicy, busy: bool, key: ActivationKey, repeat: bool)
    ensures
        key_down_response(policy, busy, false, key, repeat).activate is None,
        key_up_response(policy, busy, false, key).activate is None,
{
}

/// A busy control swallows Enter and Space and never activates.
pub proof fn lemma_busy_swallows(policy: KeyPolicy, has_handler: bool, key: ActivationKey, repeat: bool)
    requires
        !(key is Other),
    ensures
        key_down_response(policy, true, has_handler, key, repeat) == swallowed(),
        key_up_response(policy, true, has_handler, key) == swallowed(),
{
}


/// A ready button with a handler is activated alike by a click, by Enter pressed and by
/// Space released, each exactly once per gesture: Space's press and Enter's release do
/// not activate it again.
pub proof fn lemma_button_activation_paths(repeat: bool)
    ensures
        key_down_response(button_policy(), false, true, ActivationKey::Enter, false).activate
            == Some(Some(KeyboardButton::Enter)),
        key_up_response(button_policy(), false, true, ActivationKey::Space).activate == Some(
            Some(KeyboardButton::Space),
        ),
        key_down_response(button_policy(), false, true, ActivationKey::Space, repeat).activate is None,
        key_up_response(button_policy(), false, true, ActivationKey::Enter).activate is None,
        key_down_response(button_policy(), false, true, ActivationKey::Enter, true).activate is None,
{
}

} // verus!
