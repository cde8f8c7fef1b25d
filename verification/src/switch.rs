//! Switches: a controlled on/off state, its activation, and the bookkeeping of the
//! animated change between the two states.
use vstd::prelude::*;

use crate::checkbox::text_view;
use crate::control::{CursorKind, Toggled};
use crate::icon::IconSource;
use crate::size::ComponentSize;
use crate::traits::{Disableable, Sizable};

verus! {

/// Default duration of the change between the two states, in nanoseconds (180 ms).
pub const DEFAULT_SWITCH_TRANSITION_NS: u128 = 180_000_000;

/// Decorative content inside the track for one state.
#[derive(Debug)]
pub enum SwitchContent {
    /// A short text.
    Text(String),
    /// An icon.
    Icon(IconSource),
    /// An icon followed by a short text.
    IconText(IconSource, String),
}

impl SwitchContent {
    /// Text content.
    pub fn text(text: &str) -> (r: SwitchContent)
        ensures
            r matches SwitchContent::Text(t) && t@ == text@,
    {
        SwitchContent::Text(text.to_string())
    }

    /// Icon content.
    pub fn icon(icon: IconSource) -> (r: SwitchContent)
        ensures
            r matches SwitchContent::Icon(i) && i@ == icon@,
    {
        SwitchContent::Icon(icon)
    }

    /// Icon then text.
    pub fn icon_text(icon: IconSource, text: &str) -> (r: SwitchContent)
        ensures
            r matches SwitchContent::IconText(i, t) && i@ == icon@ && t@ == text@,
    {
        SwitchContent::IconText(icon, text.to_string())
    }
}

/// Which handler receives the switch's activation: the last one registered wins.
#[derive(Clone, Copy, Debug, PartialEq, Eq, Structural)]
pub enum SwitchActivation {
    /// The change handler, with the proposed value.
    Change,
    /// The raw click handler.
    Click,
}

/// A switch's settings, built step by step (handlers and contents stay with the host,
/// which records here which kind of handler it holds and whether contents are set).
#[derive(Clone, Debug)]
pub struct Switch {
    /// The controlled on/off value.
    pub checked: bool,
    /// Disabled.
    pub disabled: bool,
    /// A background operation runs: activation is swallowed.
    pub loading: bool,
    /// Duration of the animated change, in nanoseconds (a `Duration` taken exactly).
    pub transition_ns: u128,
    /// The visible label after the track, also the default accessible name.
    pub label: Option<String>,
    /// The explicit size.
    pub size: Option<ComponentSize>,
    /// The cursor while enabled.
    pub cursor_style: Option<CursorKind>,
    /// The accessible name, which overrides the label.
    pub aria_label: Option<String>,
    /// The accessible description.
    pub aria_description: Option<String>,
    /// Content is set for the checked state.
    pub has_checked_content: bool,
    /// Content is set for the unchecked state.
    pub has_unchecked_content: bool,
    /// The registered handler kind.
    pub activation: Option<SwitchActivation>,
}

impl Switch {
    /// Off, enabled, not loading, with the default transition, no label, accessible
    /// name or description, and nothing else set.
    pub fn new() -> (r: Switch)
        ensures
            r == (Switch {
                checked: false,
                disabled: false,
                loading: false,
                transition_ns: DEFAULT_SWITCH_TRANSITION_NS,
                label: None,
                size: None,
                cursor_style: None,
                aria_label: None,
                aria_description: None,
                has_checked_content: false,
                has_unchecked_content: false,
                activation: None,
            }),
    {
        Switch {
            checked: false,
            disabled: false,
            loading: false,
            transition_ns: DEFAULT_SWITCH_TRANSITION_NS,
            label: None,
            size: None,
            cursor_style: None,
            aria_label: None,
            aria_description: None,
            has_checked_content: false,
            has_unchecked_content: false,
            activation: None,
        }
    }

    /// Sets the controlled value.
    pub fn checked(self, checked: bool) -> (r: Switch)
        ensures
            r == (Switch { checked, ..self }),
    {
        Switch { checked, ..self }
    }

    /// Sets the loading state.
    pub fn loading(self, loading: bool) -> (r: Switch)
        ensures
            r == (Switch { loading, ..self }),
    {
        Switch { loading, ..self }
    }

    /// Sets the duration of the animated change, in nanoseconds (0 switches at once).
    pub fn transition_duration(self, transition_ns: u128) -> (r: Switch)
        ensures
            r == (Switch { transition_ns, ..self }),
    {
        Switch { transition_ns, ..self }
    }

    /// Sets the visible label after the track; it shares the switch's hit area and is
    /// the default accessible name.
    pub fn label(self, label: &str) -> (r: Switch)
        ensures
            r.label matches Some(l) && l@ == label@,
            r == (Switch { label: r.label, ..self }),
    {
        Switch { label: Some(label.to_string()), ..self }
    }

    /// Sets the accessible name, which overrides the visible label.
    pub fn aria_label(self, label: &str) -> (r: Switch)
        ensures
            r.aria_label matches Some(l) && l@ == label@,
            r == (Switch { aria_label: r.aria_label, ..self }),
    {
        Switch { aria_label: Some(label.to_string()), ..self }
    }

    /// Sets the accessible description.
    pub fn aria_description(self, description: &str) -> (r: Switch)
        ensures
            r.aria_description matches Some(d) && d@ == description@,
            r == (Switch { aria_description: r.aria_description, ..self }),
    {
        Switch { aria_description: Some(description.to_string()), ..self }
    }

    /// The accessible name: the explicit one, else the visible label.
    pub fn accessible_label(&self) -> (r: Option<String>)
        ensures
            text_view(r) == (match self.aria_label {
                Some(a) => Some(a@),
                None => text_view(self.label),
            }),
    {
        match &self.aria_label {
            Some(a) => Some(a.clone()),
            None => match &self.label {
                Some(l) => Some(l.clone()),
                None => None,
            },
        }
    }

    /// Sets the cursor shown while enabled.
    pub fn cursor_style(self, cursor_style: CursorKind) -> (r: Switch)
        ensures
            r == (Switch { cursor_style: Some(cursor_style), ..self }),
    {
        Switch { cursor_style: Some(cursor_style), ..self }
    }

    /// Records that a change handler is registered (replacing a click handler).
    pub fn on_change(self) -> (r: Switch)
        ensures
            r == (Switch { activation: Some(SwitchActivation::Change), ..self }),
    {
        Switch { activation: Some(SwitchActivation::Change), ..self }
    }

    /// Records that a click handler is registered (replacing a change handler).
    pub fn on_click(self) -> (r: Switch)
        ensures
            r == (Switch { activation: Some(SwitchActivation::Click), ..self }),
    {
        Switch { activation: Some(SwitchActivation::Click), ..self }
    }

    /// Records that the on state shows content in the track (the content is the host's;
    /// setting it again replaces it).
    pub fn checked_content(self) -> (r: Switch)
        ensures
            r == (Switch { has_checked_content: true, ..self }),
    {
        Switch { has_checked_content: true, ..self }
    }

    /// Records that the off state shows content in the track (the content is the host's;
    /// setting it again replaces it).
    pub fn unchecked_content(self) -> (r: Switch)
        ensures
            r == (Switch { has_unchecked_content: true, ..self }),
    {
        Switch { has_unchecked_content: true, ..self }
    }

    /// What the switch shows and how it reacts.
    pub fn render_plan(&self) -> (r: SwitchRenderPlan)
        ensures
            r == switch_plan(*self),
    {
        SwitchRenderPlan {
            toggled: if self.checked {
                Toggled::True
            } else {
                Toggled::False
            },
            disabled_palette: self.disabled,
            activation: if !self.disabled && !self.loading {
                self.activation
            } else {
                None
            },
            next_checked: !self.checked,
            busy: self.loading,
            has_content: self.has_checked_content || self.has_unchecked_content,
            cursor: crate::control::resolved_cursor_style(
                self.disabled,
                self.loading,
                self.cursor_style,
            ),
            focusable: !self.disabled,
            feedback: !self.disabled && !self.loading,
        }
    }
}

/// The render plan of a switch: a disabled or loading switch is not activated and shows
/// no hover or press feedback; a disabled one takes no focus.
pub open spec fn switch_plan(sw: Switch) -> SwitchRenderPlan {
    SwitchRenderPlan {
        toggled: if sw.checked {
            Toggled::True
        } else {
            Toggled::False
        },
        disabled_palette: sw.disabled,
        activation: if !sw.disabled && !sw.loading {
            sw.activation
        } else {
            None
        },
        next_checked: !sw.checked,
        busy: sw.loading,
        has_content: sw.has_checked_content || sw.has_unchecked_content,
        cursor: if sw.disabled {
            CursorKind::NotAllowed
        } else {
            match sw.cursor_style {
                Some(c) => c,
                None => if sw.loading {
                    CursorKind::Arrow
                } else {
                    CursorKind::PointingHand
                },
            }
        },
        focusable: !sw.disabled,
        feedback: !sw.disabled && !sw.loading,
    }
}

/// A disabled or loading switch never reaches its handler, whatever activation it has.
pub proof fn lemma_inactive_switch_never_activates(sw: Switch)
    requires
        sw.disabled || sw.loading,
    ensures
        switch_plan(sw).activation is None,
        !switch_plan(sw).feedback,
{
}

impl Disableable for Switch {
    fn disabled(self, disabled: bool) -> (r: Switch)
        ensures
            r == (Switch { disabled, ..self }),
    {
        Switch { disabled, ..self }
    }
}

impl Sizable for Switch {
    fn size(self, size: ComponentSize) -> (r: Switch)
        ensures
            r == (Switch { size: Some(size), ..self }),
    {
        Switch { size: Some(size), ..self }
    }
}

/// What a switch shows and how it reacts.
#[derive(Clone, Copy, Debug, PartialEq, Eq, Structural)]
pub struct SwitchRenderPlan {
    /// Toggle state exposed to assistive technology.
    pub toggled: Toggled,
    /// The colours of the disabled state are shown.
    pub disabled_palette: bool,
    /// The handler that activation reaches, if any.
    pub activation: Option<SwitchActivation>,
    /// The value a change handler receives.
    pub next_checked: bool,
    /// Loading: pointer, Enter and Space are swallowed.
    pub busy: bool,
    /// The track holds state contents (and is sized for them).
    pub has_content: bool,
    /// Cursor over the switch.
    pub cursor: CursorKind,
    /// The switch takes keyboard focus.
    pub focusable: bool,
    /// Hover and press change the label colour.
    pub feedback: bool,
}

/// The animation bookkeeping of a switch, kept across frames.
#[derive(Clone, Copy, Debug, PartialEq, Eq, Structural)]
pub struct SwitchMotionState {
    /// The value last rendered.
    pub checked: bool,
    /// The value the current change started from.
    pub from_checked: bool,
    /// Number of changes seen (wrapping).
    pub generation: u64,
    /// Duration of the current change, in nanoseconds.
    pub duration_ns: u128,
    /// The change of this generation is animated.
    pub animate_generation: Option<u64>,
}

/// What a frame draws of the change.
#[derive(Clone, Copy, Debug, PartialEq, Eq, Structural)]
pub struct SwitchMotion {
    /// The value the change started from.
    pub from_checked: bool,
    /// The change's generation (keys its animation).
    pub generation: u64,
    /// The change's duration, in nanoseconds.
    pub duration_ns: u128,
    /// The change is animated; else the switch is drawn in its final state.
    pub animate: bool,
}

/// The generation after `g`, wrapping.
pub open spec fn next_generation(g: u64) -> u64 {
    if g == u64::MAX {
        0
    } else {
        (g + 1) as u64
    }
}

impl SwitchMotionState {
    /// At rest on `checked`.
    pub fn new(checked: bool, duration_ns: u128) -> (r: SwitchMotionState)
        ensures
            r == (SwitchMotionState {
                checked,
                from_checked: checked,
                generation: 0,
                duration_ns,
                animate_generation: None,
            }),
    {
        SwitchMotionState {
            checked,
            from_checked: checked,
            generation: 0,
            duration_ns,
            animate_generation: None,
        }
    }

    /// A frame renders `checked`: a change of value starts a new change from the old
    /// value, animated unless its duration is zero or motion is reduced.
    pub fn update(&mut self, checked: bool, duration_ns: u128, reduce_motion: bool)
        ensures
            *final(self) == motion_updated(*old(self), checked, duration_ns, reduce_motion),
    {
        if self.checked == checked {
            return;
        }
        self.from_checked = self.checked;
        self.checked = checked;
        self.generation = if self.generation == u64::MAX {
            0
        } else {
            self.generation + 1
        };
        self.duration_ns = duration_ns;
        self.animate_generation = if duration_ns != 0 && !reduce_motion {
            Some(self.generation)
        } else {
            None
        };
    }

    /// What the frame draws.
    pub fn motion(&self) -> (r: SwitchMotion)
        ensures
            r == (SwitchMotion {
                from_checked: self.from_checked,
                generation: self.generation,
                duration_ns: self.duration_ns,
                animate: self.animate_generation == Some(self.generation),
            }),
    {
        SwitchMotion {
            from_checked: self.from_checked,
            generation: self.generation,
            duration_ns: self.duration_ns,
            animate: match self.animate_generation {
                Some(g) => g == self.generation,
                None => false,
            },
        }
    }
}

/// The state after a frame renders `checked`.
pub open spec fn motion_updated(st: SwitchMotionState, checked: bool, duration_ns: u128, reduce_motion: bool) -> SwitchMotionState {
    if st.checked == checked {
        st
    } else {
        SwitchMotionState {
            checked,
            from_checked: st.checked,
            generation: next_generation(st.generation),
            duration_ns,
            animate_generation: if duration_ns != 0 && !reduce_motion {
                Some(next_generation(st.generation))
            } else {
                None
            },
        }
    }
}

/// Rendering the same value again changes nothing, and a change starts from the value
/// rendered before it.
pub proof fn lemma_motion_update_idempotent(
    st: SwitchMotionState,
    checked: bool,
    d1: u128,
    d2: u128,
    rm1: bool,
    rm2: bool,
)
    ensures
        motion_updated(motion_updated(st, checked, d1, rm1), checked, d2, rm2) == motion_updated(
            st,
            checked,
            d1,
            rm1,
        ),
        st.checked != checked ==> motion_updated(st, checked, d1, rm1).from_checked != checked,
{
}

} // verus!
