//! Checkboxes: a controlled checked / indeterminate state, the value a click proposes,
//! and what the checkbox shows in each state.
use vstd::prelude::*;

use crate::control::{resolved_cursor_style, CursorKind, Toggled};
use crate::icon::IconSource;
use crate::size::{ComponentSize, ComponentSizeSettings};
use crate::traits::{Disableable, Sizable};

verus! {

/// Path of the built-in check mark.
pub const DEFAULT_CHECKED_ICON: &'static str = "components/checkbox/check.svg";

/// Path of the built-in dash of the indeterminate state.
pub const DEFAULT_INDETERMINATE_ICON: &'static str = "components/checkbox/minus.svg";

/// What a checkbox shows.
#[derive(Clone, Copy, Debug, PartialEq, Eq, Structural)]
pub enum CheckboxVisualState {
    /// Not checked.
    Unchecked,
    /// Checked.
    Checked,
    /// Partly checked; shown over the checked state.
    Indeterminate,
}

/// Theme key of a visual state.
pub open spec fn checkbox_state_key(s: CheckboxVisualState) -> Seq<char> {
    match s {
        CheckboxVisualState::Unchecked => "unchecked"@,
        CheckboxVisualState::Checked => "checked"@,
        CheckboxVisualState::Indeterminate => "indeterminate"@,
    }
}

/// The visual state of a checkbox: indeterminate takes precedence over checked.
pub open spec fn visual_state_of(checked: bool, indeterminate: bool) -> CheckboxVisualState {
    if indeterminate {
        CheckboxVisualState::Indeterminate
    } else if checked {
        CheckboxVisualState::Checked
    } else {
        CheckboxVisualState::Unchecked
    }
}

impl CheckboxVisualState {
    /// The visual state of a checkbox.
    pub fn new(checked: bool, indeterminate: bool) -> (r: CheckboxVisualState)
        ensures
            r == visual_state_of(checked, indeterminate),
    {
        if indeterminate {
            CheckboxVisualState::Indeterminate
        } else if checked {
            CheckboxVisualState::Checked
        } else {
            CheckboxVisualState::Unchecked
        }
    }

    /// The theme key of the state.
    pub fn token_key(self) -> (r: &'static str)
        ensures
            r@ == checkbox_state_key(self),
    {
        match self {
            CheckboxVisualState::Unchecked => "unchecked",
            CheckboxVisualState::Checked => "checked",
            CheckboxVisualState::Indeterminate => "indeterminate",
        }
    }
}

/// The value a click proposes: an indeterminate checkbox becomes checked, any other
/// flips.
pub fn next_checked(checked: bool, indeterminate: bool) -> (r: bool)
    ensures
        r == next_checked_of(checked, indeterminate),
{
    if indeterminate {
        true
    } else {
        !checked
    }
}

/// The toggle state exposed for a visual state.
pub fn toggled_state(state: CheckboxVisualState) -> (r: Toggled)
    ensures
        r == (match state {
            CheckboxVisualState::Unchecked => Toggled::False,
            CheckboxVisualState::Checked => Toggled::True,
            CheckboxVisualState::Indeterminate => Toggled::Mixed,
        }),
{
    match state {
        CheckboxVisualState::Unchecked => Toggled::False,
        CheckboxVisualState::Checked => Toggled::True,
        CheckboxVisualState::Indeterminate => Toggled::Mixed,
    }
}

/// Which theme colour an indicator icon takes.
#[derive(Clone, Copy, Debug, PartialEq, Eq, Structural)]
pub enum IndicatorTone {
    /// The state's border colour.
    Border,
    /// The state's box background colour.
    BoxBackground,
    /// The state's icon colour.
    Icon,
}

/// The colour of the indicator icon: an enabled icon indicator is drawn in the border
/// colour when unchecked and in the box colour otherwise; every other icon takes the
/// icon colour.
pub fn indicator_icon_tone(state: CheckboxVisualState, icon_indicator: bool, disabled: bool) -> (r:
    IndicatorTone)
    ensures
        r == (if icon_indicator && !disabled {
            if state is Unchecked {
                IndicatorTone::Border
            } else {
                IndicatorTone::BoxBackground
            }
        } else {
            IndicatorTone::Icon
        }),
{
    if icon_indicator && !disabled {
        match state {
            CheckboxVisualState::Unchecked => IndicatorTone::Border,
            _ => IndicatorTone::BoxBackground,
        }
    } else {
        IndicatorTone::Icon
    }
}

/// An optional text, as characters.
pub open spec fn text_view(t: Option<String>) -> Option<Seq<char>> {
    match t {
        Some(s) => Some(s@),
        None => None,
    }
}

/// An optional icon, as its path.
pub open spec fn path_view(i: Option<IconSource>) -> Option<Seq<char>> {
    match i {
        Some(s) => Some(s@),
        None => None,
    }
}

/// What a checkbox holds: everything but its id and its handlers.
pub struct CheckboxModel {
    /// The controlled checked value.
    pub checked: bool,
    /// The controlled partly-checked value.
    pub indeterminate: bool,
    /// Disabled.
    pub disabled: bool,
    /// The visible label.
    pub label: Option<Seq<char>>,
    /// The explicit size.
    pub size: Option<ComponentSize>,
    /// The cursor while enabled.
    pub cursor_style: Option<CursorKind>,
    /// Icon of the unchecked state.
    pub unchecked_icon: Option<Seq<char>>,
    /// Icon of the checked state.
    pub checked_icon: Option<Seq<char>>,
    /// Icon of the indeterminate state.
    pub indeterminate_icon: Option<Seq<char>>,
    /// State icons replace the box.
    pub icon_indicator: bool,
    /// Accessible name.
    pub aria_label: Option<Seq<char>>,
    /// Accessible description.
    pub aria_description: Option<Seq<char>>,
}

/// A checkbox's settings, built step by step.
pub struct Checkbox {
    checked: bool,
    indeterminate: bool,
    disabled: bool,
    label: Option<String>,
    size: Option<ComponentSize>,
    cursor_style: Option<CursorKind>,
    unchecked_icon: Option<IconSource>,
    checked_icon: Option<IconSource>,
    indeterminate_icon: Option<IconSource>,
    icon_indicator: bool,
    aria_label: Option<String>,
    aria_description: Option<String>,
}

impl View for Checkbox {
    type V = CheckboxModel;

    closed spec fn view(&self) -> CheckboxModel {
        CheckboxModel {
            checked: self.checked,
            indeterminate: self.indeterminate,
            disabled: self.disabled,
            label: text_view(self.label),
            size: self.size,
            cursor_style: self.cursor_style,
            unchecked_icon: path_view(self.unchecked_icon),
            checked_icon: path_view(self.checked_icon),
            indeterminate_icon: path_view(self.indeterminate_icon),
            icon_indicator: self.icon_indicator,
            aria_label: text_view(self.aria_label),
            aria_description: text_view(self.aria_description),
        }
    }
}

impl Checkbox {
    /// Unchecked, enabled, without label, icons or size.
    pub fn new() -> (r: Checkbox)
        ensures
            r@ == (CheckboxModel {
                checked: false,
                indeterminate: false,
                disabled: false,
                label: None,
                size: None,
                cursor_style: None,
                unchecked_icon: None,
                checked_icon: None,
                indeterminate_icon: None,
                icon_indicator: false,
                aria_label: None,
                aria_description: None,
            }),
    {
        Checkbox {
            checked: false,
            indeterminate: false,
            disabled: false,
            label: None,
            size: None,
            cursor_style: None,
            unchecked_icon: None,
            checked_icon: None,
            indeterminate_icon: None,
            icon_indicator: false,
            aria_label: None,
            aria_description: None,
        }
    }

    /// Sets the controlled checked value.
    pub fn checked(self, checked: bool) -> (r: Checkbox)
        ensures
            r@ == (CheckboxModel { checked, ..self@ }),
    {
        Checkbox { checked, ..self }
    }

    /// Sets the controlled partly-checked value.
    pub fn indeterminate(self, indeterminate: bool) -> (r: Checkbox)
        ensures
            r@ == (CheckboxModel { indeterminate, ..self@ }),
    {
        Checkbox { indeterminate, ..self }
    }

    /// Sets the visible label, which is also the default accessible name.
    pub fn label(self, label: &str) -> (r: Checkbox)
        ensures
            r@ == (CheckboxModel { label: Some(label@), ..self@ }),
    {
        Checkbox { label: Some(label.to_string()), ..self }
    }

    /// Sets the cursor shown while enabled.
    pub fn cursor_style(self, cursor_style: CursorKind) -> (r: Checkbox)
        ensures
            r@ == (CheckboxModel { cursor_style: Some(cursor_style), ..self@ }),
    {
        Checkbox { cursor_style: Some(cursor_style), ..self }
    }

    /// Sets the icon of the unchecked state.
    pub fn unchecked_icon(self, icon: IconSource) -> (r: Checkbox)
        ensures
            r@ == (CheckboxModel { unchecked_icon: Some(icon@), ..self@ }),
    {
        Checkbox { unchecked_icon: Some(icon), ..self }
    }

    /// Sets the icon of the checked state.
    pub fn checked_icon(self, icon: IconSource) -> (r: Checkbox)
        ensures
            r@ == (CheckboxModel { checked_icon: Some(icon@), ..self@ }),
    {
        Checkbox { checked_icon: Some(icon), ..self }
    }

    /// Sets the icon of the indeterminate state.
    pub fn indeterminate_icon(self, icon: IconSource) -> (r: Checkbox)
        ensures
            r@ == (CheckboxModel { indeterminate_icon: Some(icon@), ..self@ }),
    {
        Checkbox { indeterminate_icon: Some(icon), ..self }
    }

    /// Replaces the box with a pair of state icons.
    pub fn indicator_icons(self, unchecked_icon: IconSource, checked_icon: IconSource) -> (r:
        Checkbox)
        ensures
            r@ == (CheckboxModel {
                unchecked_icon: Some(unchecked_icon@),
                checked_icon: Some(checked_icon@),
                icon_indicator: true,
                ..self@
            }),
    {
        Checkbox {
            unchecked_icon: Some(unchecked_icon),
            checked_icon: Some(checked_icon),
            icon_indicator: true,
            ..self
        }
    }

    /// Sets the accessible name, which overrides the label.
    pub fn aria_label(self, label: &str) -> (r: Checkbox)
        ensures
            r@ == (CheckboxModel { aria_label: Some(label@), ..self@ }),
    {
        Checkbox { aria_label: Some(label.to_string()), ..self }
    }

    /// Sets the accessible description.
    pub fn aria_description(self, description: &str) -> (r: Checkbox)
        ensures
            r@ == (CheckboxModel { aria_description: Some(description@), ..self@ }),
    {
        Checkbox { aria_description: Some(description.to_string()), ..self }
    }

    /// Whether the checkbox is checked.
    pub fn is_checked(&self) -> (r: bool)
        ensures
            r == self@.checked,
    {
        self.checked
    }

    /// Whether the checkbox is partly checked.
    pub fn is_indeterminate(&self) -> (r: bool)
        ensures
            r == self@.indeterminate,
    {
        self.indeterminate
    }

    /// Whether the checkbox is disabled.
    pub fn is_disabled(&self) -> (r: bool)
        ensures
            r == self@.disabled,
    {
        self.disabled
    }

    /// Whether state icons replace the box.
    pub fn uses_icon_indicator(&self) -> (r: bool)
        ensures
            r == self@.icon_indicator,
    {
        self.icon_indicator
    }

    /// The explicit size.
    pub fn explicit_size(&self) -> (r: Option<ComponentSize>)
        ensures
            r == self@.size,
    {
        self.size
    }

    /// The size used: the explicit one, else the application's default.
    pub fn resolved_size(&self, settings: &ComponentSizeSettings) -> (r: ComponentSize)
        ensures
            r == (match self@.size {
                Some(s) => s,
                None => settings.size.unwrap_or(ComponentSize::Md),
            }),
    {
        crate::size::resolved_size(self.size, settings)
    }

    /// The visual state.
    pub fn visual_state(&self) -> (r: CheckboxVisualState)
        ensures
            r == visual_state_of(self@.checked, self@.indeterminate),
    {
        CheckboxVisualState::new(self.checked, self.indeterminate)
    }

    /// The accessible name: the explicit one, else the label.
    pub fn accessible_label(&self) -> (r: Option<String>)
        ensures
            text_view(r) == (match self@.aria_label {
                Some(a) => Some(a),
                None => self@.label,
            }),
    {
        match &self.aria_label {
            Some(a) => Some(a.clone()),
            None => match &self.label {
                Some(l) => Some(l.clone()),
                None => None,
            },
        }
    }

    /// The icon drawn for `state`: the unchecked icon if any; the checked or indeterminate
    /// icon, else the built-in one.
    pub fn icon_for_state(&self, state: CheckboxVisualState) -> (r: Option<IconSource>)
        ensures
            path_view(r) == (match state {
                CheckboxVisualState::Unchecked => self@.unchecked_icon,
                CheckboxVisualState::Checked => Some(
                    self@.checked_icon.unwrap_or(DEFAULT_CHECKED_ICON@),
                ),
                CheckboxVisualState::Indeterminate => Some(
                    self@.indeterminate_icon.unwrap_or(DEFAULT_INDETERMINATE_ICON@),
                ),
            }),
    {
        match state {
            CheckboxVisualState::Unchecked => match &self.unchecked_icon {
                Some(i) => Some(i.duplicate()),
                None => None,
            },
            CheckboxVisualState::Checked => match &self.checked_icon {
                Some(i) => Some(i.duplicate()),
                None => Some(IconSource::asset(DEFAULT_CHECKED_ICON)),
            },
            CheckboxVisualState::Indeterminate => match &self.indeterminate_icon {
                Some(i) => Some(i.duplicate()),
                None => Some(IconSource::asset(DEFAULT_INDETERMINATE_ICON)),
            },
        }
    }

    /// What the checkbox shows and how it reacts, given whether it has a change handler.
    pub fn render_plan(&self, has_on_change: bool) -> (r: CheckboxRenderPlan)
        ensures
            r == checkbox_plan(self@, has_on_change),
    {
        let state = self.visual_state();
        CheckboxRenderPlan {
            state,
            toggled: toggled_state(state),
            disabled_palette: self.disabled,
            change_enabled: has_on_change && !self.disabled,
            next_checked: next_checked(self.checked, self.indeterminate),
            draws_box: !self.icon_indicator,
            indicator_tone: indicator_icon_tone(state, self.icon_indicator, self.disabled),
            feedback: !self.disabled,
            cursor: resolved_cursor_style(self.disabled, false, self.cursor_style),
            focusable: !self.disabled,
        }
    }
}

impl Disableable for Checkbox {
    fn disabled(self, disabled: bool) -> (r: Checkbox)
        ensures
            r@ == (CheckboxModel { disabled, ..self@ }),
    {
        Checkbox { disabled, ..self }
    }
}

impl Sizable for Checkbox {
    fn size(self, size: ComponentSize) -> (r: Checkbox)
        ensures
            r@ == (CheckboxModel { size: Some(size), ..self@ }),
    {
        Checkbox { size: Some(size), ..self }
    }
}

/// What a checkbox shows and how it reacts.
#[derive(Clone, Copy, Debug, PartialEq, Eq, Structural)]
pub struct CheckboxRenderPlan {
    /// The visual state.
    pub state: CheckboxVisualState,
    /// Toggle state exposed to assistive technology.
    pub toggled: Toggled,
    /// The colours of the disabled state are shown.
    pub disabled_palette: bool,
    /// Clicks and Space reach the change handler.
    pub change_enabled: bool,
    /// The value the change handler receives.
    pub next_checked: bool,
    /// A bordered box is drawn around the indicator.
    pub draws_box: bool,
    /// Colour of the indicator icon.
    pub indicator_tone: IndicatorTone,
    /// Hover and press change the colours.
    pub feedback: bool,
    /// Cursor over the checkbox.
    pub cursor: CursorKind,
    /// The checkbox takes keyboard focus.
    pub focusable: bool,
}

/// The render plan of a checkbox.
pub open spec fn checkbox_plan(m: CheckboxModel, has_on_change: bool) -> CheckboxRenderPlan {
    let state = visual_state_of(m.checked, m.indeterminate);
    CheckboxRenderPlan {
        state,
        toggled: match state {
            CheckboxVisualState::Unchecked => Toggled::False,
            CheckboxVisualState::Checked => Toggled::True,
            CheckboxVisualState::Indeterminate => Toggled::Mixed,
        },
        disabled_palette: m.disabled,
        change_enabled: has_on_change && !m.disabled,
        next_checked: m.indeterminate || !m.checked,
        draws_box: !m.icon_indicator,
        indicator_tone: if m.icon_indicator && !m.disabled {
            if state is Unchecked {
                IndicatorTone::Border
            } else {
                IndicatorTone::BoxBackground
            }
        } else {
            IndicatorTone::Icon
        },
        feedback: !m.disabled,
        cursor: if m.disabled {
            CursorKind::NotAllowed
        } else {
            m.cursor_style.unwrap_or(CursorKind::PointingHand)
        },
        focusable: !m.disabled,
    }
}

/// The value a click proposes.
pub open spec fn next_checked_of(checked: bool, indeterminate: bool) -> bool {
    indeterminate || !checked
}

/// Two activations of a checkbox that is not indeterminate, each applied by the host,
/// bring it back to its value; an indeterminate checkbox always proposes checked.
pub proof fn lemma_next_checked_round_trip(checked: bool)
    ensures
        next_checked_of(next_checked_of(checked, false), false) == checked,
        next_checked_of(checked, true),
{
}


/// A disabled checkbox never reaches its change handler, takes no focus and shows the
/// "not allowed" cursor whatever cursor was set.
pub proof fn lemma_disabled_checkbox_inert(m: CheckboxModel, has_on_change: bool)
    requires
        m.disabled,
    ensures
        !checkbox_plan(m, has_on_change).change_enabled,
        !checkbox_plan(m, has_on_change).focusable,
        checkbox_plan(m, has_on_change).cursor == CursorKind::NotAllowed,
{
}

} // verus!
