//! Buttons: variants and sizes, the visual label, and what a button shows and answers
//! in each of its states.
use unicode_script::{Script, UnicodeScript};
use vstd::prelude::*;

use crate::control::{resolved_cursor_style, CursorKind, Toggled};
use crate::icon::IconSource;
use crate::traits::Disableable;
use crate::text::utf::chars_of;

verus! {

/// Visual variant of a button.
#[derive(Clone, Copy, Debug, PartialEq, Eq, Structural)]
pub enum ButtonVariant {
    /// Main action; the default.
    Primary,
    /// Secondary action with a border.
    Outline,
    /// Transparent, with feedback on hover.
    Transparent,
    /// Dangerous or irreversible action.
    Destructive,
    /// Secondary solid button.
    Secondary,
    /// Looks like a link; still a button to assistive technology.
    Link,
}

/// Theme key of a button variant.
pub open spec fn button_variant_key(v: ButtonVariant) -> Seq<char> {
    match v {
        ButtonVariant::Primary => "primary"@,
        ButtonVariant::Outline => "outline"@,
        ButtonVariant::Transparent => "ghost"@,
        ButtonVariant::Destructive => "destructive"@,
        ButtonVariant::Secondary => "secondary"@,
        ButtonVariant::Link => "link"@,
    }
}

impl ButtonVariant {
    /// The theme key of the variant.
    pub fn token_key(self) -> (r: &'static str)
        ensures
            r@ == button_variant_key(self),
    {
        match self {
            ButtonVariant::Primary => "primary",
            ButtonVariant::Outline => "outline",
            ButtonVariant::Transparent => "ghost",
            ButtonVariant::Destructive => "destructive",
            ButtonVariant::Secondary => "secondary",
            ButtonVariant::Link => "link",
        }
    }

    /// Only the link variant underlines its label on hover.
    pub fn underlines_on_hover(self) -> (r: bool)
        ensures
            r == (self is Link),
    {
        match self {
            ButtonVariant::Link => true,
            _ => false,
        }
    }
}

/// Size of a button.
#[derive(Clone, Copy, Debug, PartialEq, Eq, Structural)]
pub enum ButtonSize {
    /// 24px high.
    Xs,
    /// 32px high.
    Sm,
    /// 36px high; the default.
    Md,
    /// 40px high.
    Lg,
}

/// Theme key of a size.
pub open spec fn button_size_key(s: ButtonSize) -> Seq<char> {
    match s {
        ButtonSize::Xs => "xs"@,
        ButtonSize::Sm => "sm"@,
        ButtonSize::Md => "md"@,
        ButtonSize::Lg => "lg"@,
    }
}

impl ButtonSize {
    /// The theme key of the size.
    pub fn token_key(self) -> (r: &'static str)
        ensures
            r@ == button_size_key(self),
    {
        match self {
            ButtonSize::Xs => "xs",
            ButtonSize::Sm => "sm",
            ButtonSize::Md => "md",
            ButtonSize::Lg => "lg",
        }
    }
}

/// What a button is busy with. The host keeps the value of a determinate progress.
#[derive(Clone, Copy, Debug, PartialEq, Eq, Structural)]
pub enum ButtonActivity {
    /// Not busy.
    Idle,
    /// Indeterminate loading: a spinner replaces the leading icon.
    Loading,
    /// Determinate progress: a bar is drawn under the label.
    Progress,
}

impl ButtonActivity {
    /// A loading or progressing button is busy and cannot be activated.
    pub fn is_busy(self) -> (r: bool)
        ensures
            r == !(self is Idle),
    {
        match self {
            ButtonActivity::Idle => false,
            _ => true,
        }
    }
}

/// The character belongs to the Han script (`unicode_script`'s script tables).
pub uninterp spec fn is_han_script(c: char) -> bool;

/// Whether `c` belongs to the Han script, from `UnicodeScript::script` of the
/// `unicode-script` crate compared with `Script::Han`.
#[verifier::external_body]
fn char_is_han(c: char) -> (r: bool)
    ensures
        r == is_han_script(c),
{
    match c.script() {
        Script::Han => true,
        _ => false,
    }
}

/// The character has the Unicode `White_Space` property.
pub open spec fn is_white_space(c: char) -> bool {
    let v = c as u32;
    ||| 0x09 <= v <= 0x0D
    ||| v == 0x20
    ||| v == 0x85
    ||| v == 0xA0
    ||| v == 0x1680
    ||| 0x2000 <= v <= 0x200A
    ||| v == 0x2028
    ||| v == 0x2029
    ||| v == 0x202F
    ||| v == 0x205F
    ||| v == 0x3000
}

/// Whether `c` has the Unicode `White_Space` property.
pub fn char_is_white_space(c: char) -> (r: bool)
    ensures
        r == is_white_space(c),
{
    let v = c as u32;
    (0x09 <= v && v <= 0x0D) || v == 0x20 || v == 0x85 || v == 0xA0 || v == 0x1680 || (0x2000
        <= v && v <= 0x200A) || v == 0x2028 || v == 0x2029 || v == 0x202F || v == 0x205F || v
        == 0x3000
}

/// The label shown for `label`: a label of exactly two Han characters gets a space between
/// them; any other label is shown as it is.
pub open spec fn auto_spaced(label: Seq<char>) -> Seq<char> {
    if label.len() == 2 && !is_white_space(label[0]) && !is_white_space(label[1])
        && is_han_script(label[0]) && is_han_script(label[1]) {
        seq![label[0], ' ', label[1]]
    } else {
        label
    }
}

/// The visual label of `label`, with a space between two Han characters.
pub fn auto_spaced_label(label: &str) -> (r: String)
    ensures
        r@ == auto_spaced(label@),
{
    let chars = chars_of(label);
    if chars.len() != 2 {
        return label.to_string();
    }
    let first = chars[0];
    let second = chars[1];
    if char_is_white_space(first) || char_is_white_space(second) {
        return label.to_string();
    }
    if char_is_han(first) && char_is_han(second) {
        let mut out = String::new();
        crate::text::utf::push_char(&mut out, first);
        crate::text::utf::push_char(&mut out, ' ');
        crate::text::utf::push_char(&mut out, second);
        proof {
            assert(out@ =~= seq![label@[0], ' ', label@[1]]);
        }
        out
    } else {
        label.to_string()
    }
}

/// The label a button shows, given its label and its auto-spacing setting (on by default).
pub open spec fn display_of(label: Seq<char>, auto_insert_space: Option<bool>) -> Seq<char> {
    if auto_insert_space.unwrap_or(true) {
        auto_spaced(label)
    } else {
        label
    }
}

/// The toggle state of a button with a selected state, if it has one.
pub fn toggled_state(selected: Option<bool>) -> (r: Option<Toggled>)
    ensures
        r == (match selected {
            Some(true) => Some(Toggled::True),
            Some(false) => Some(Toggled::False),
            None => None,
        }),
{
    match selected {
        Some(true) => Some(Toggled::True),
        Some(false) => Some(Toggled::False),
        None => None,
    }
}

/// What a button holds: everything but its id and its click handler.
pub struct ButtonModel {
    /// The label given by the user (also the accessible name).
    pub label: Seq<char>,
    /// The label shown.
    pub display_label: Seq<char>,
    /// The variant, if set.
    pub variant: Option<ButtonVariant>,
    /// The size, if set.
    pub size: Option<ButtonSize>,
    /// Path of the leading icon.
    pub start_icon: Option<Seq<char>>,
    /// Path of the trailing icon.
    pub end_icon: Option<Seq<char>>,
    /// Disabled.
    pub disabled: bool,
    /// Busy state.
    pub activity: ButtonActivity,
    /// Controlled selected state, if the button is a toggle.
    pub selected: Option<bool>,
    /// Whether two Han characters get a space, if set.
    pub auto_insert_space: Option<bool>,
}

/// A button's settings, built step by step.
pub struct Button {
    label: String,
    display_label: String,
    variant: Option<ButtonVariant>,
    size: Option<ButtonSize>,
    start_icon: Option<IconSource>,
    end_icon: Option<IconSource>,
    disabled: bool,
    activity: ButtonActivity,
    selected: Option<bool>,
    auto_insert_space: Option<bool>,
}

/// The path of an optional icon.
pub open spec fn icon_view(i: Option<IconSource>) -> Option<Seq<char>> {
    match i {
        Some(s) => Some(s@),
        None => None,
    }
}

impl View for Button {
    type V = ButtonModel;

    closed spec fn view(&self) -> ButtonModel {
        ButtonModel {
            label: self.label@,
            display_label: self.display_label@,
            variant: self.variant,
            size: self.size,
            start_icon: icon_view(self.start_icon),
            end_icon: icon_view(self.end_icon),
            disabled: self.disabled,
            activity: self.activity,
            selected: self.selected,
            auto_insert_space: self.auto_insert_space,
        }
    }
}

impl Button {
    /// The shown label is the label after auto-spacing.
    pub open spec fn wf(&self) -> bool {
        self@.display_label == display_of(self@.label, self@.auto_insert_space)
    }

    /// A button with an empty label and nothing set.
    pub fn new() -> (r: Button)
        ensures
            r.wf(),
            r@ == (ButtonModel {
                label: Seq::empty(),
                display_label: Seq::empty(),
                variant: None,
                size: None,
                start_icon: None,
                end_icon: None,
                disabled: false,
                activity: ButtonActivity::Idle,
                selected: None,
                auto_insert_space: None,
            }),
    {
        let r = Button {
            label: String::new(),
            display_label: String::new(),
            variant: None,
            size: None,
            start_icon: None,
            end_icon: None,
            disabled: false,
            activity: ButtonActivity::Idle,
            selected: None,
            auto_insert_space: None,
        };
        proof {
            assert(auto_spaced(Seq::<char>::empty()) =~= Seq::<char>::empty());
        }
        r
    }

    /// Sets the label; the shown label follows it.
    pub fn label(self, label: &str) -> (r: Button)
        requires
            self.wf(),
        ensures
            r.wf(),
            r@ == (ButtonModel {
                label: label@,
                display_label: display_of(label@, self@.auto_insert_space),
                ..self@
            }),
    {
        let mut r = self;
        r.label = label.to_string();
        r.recompute_display_label();
        r
    }

    fn recompute_display_label(&mut self)
        ensures
            final(self)@ == (ButtonModel {
                display_label: display_of(old(self)@.label, old(self)@.auto_insert_space),
                ..old(self)@
            }),
    {
        let enabled = match self.auto_insert_space {
            Some(b) => b,
            None => true,
        };
        if enabled {
            self.display_label = auto_spaced_label(self.label.as_str());
        } else {
            self.display_label = self.label.clone();
        }
    }

    /// Sets whether a label of two Han characters is shown with a space between them.
    pub fn auto_insert_space(self, enabled: bool) -> (r: Button)
        ensures
            r.wf(),
            r@ == (ButtonModel {
                auto_insert_space: Some(enabled),
                display_label: display_of(self@.label, Some(enabled)),
                ..self@
            }),
    {
        let mut r = self;
        r.auto_insert_space = Some(enabled);
        r.recompute_display_label();
        r
    }

    /// Sets the variant.
    pub fn variant(self, variant: ButtonVariant) -> (r: Button)
        ensures
            r@ == (ButtonModel { variant: Some(variant), ..self@ }),
    {
        Button { variant: Some(variant), ..self }
    }

    /// Sets the size.
    pub fn size(self, size: ButtonSize) -> (r: Button)
        ensures
            r@ == (ButtonModel { size: Some(size), ..self@ }),
    {
        Button { size: Some(size), ..self }
    }

    /// Sets the leading icon; a later call replaces an earlier one.
    pub fn start_icon(self, icon: IconSource) -> (r: Button)
        ensures
            r@ == (ButtonModel { start_icon: Some(icon@), ..self@ }),
    {
        Button { start_icon: Some(icon), ..self }
    }

    /// Sets the trailing icon; a later call replaces an earlier one.
    pub fn end_icon(self, icon: IconSource) -> (r: Button)
        ensures
            r@ == (ButtonModel { end_icon: Some(icon@), ..self@ }),
    {
        Button { end_icon: Some(icon), ..self }
    }

    /// Sets the disabled state.
    pub fn disabled(self, disabled: bool) -> (r: Button)
        ensures
            r@ == (ButtonModel { disabled, ..self@ }),
    {
        Button { disabled, ..self }
    }

    /// Turns indeterminate loading on, or back to idle; it replaces a progress.
    pub fn loading(self, loading: bool) -> (r: Button)
        ensures
            r@ == (ButtonModel {
                activity: if loading {
                    ButtonActivity::Loading
                } else {
                    ButtonActivity::Idle
                },
                ..self@
            }),
    {
        Button {
            activity: if loading {
                ButtonActivity::Loading
            } else {
                ButtonActivity::Idle
            },
            ..self
        }
    }

    /// Shows a determinate progress (whose value the host keeps); it replaces loading.
    pub fn progress(self) -> (r: Button)
        ensures
            r@ == (ButtonModel { activity: ButtonActivity::Progress, ..self@ }),
    {
        Button { activity: ButtonActivity::Progress, ..self }
    }

    /// Sets the controlled selected state, which makes the button a toggle.
    pub fn selected(self, selected: bool) -> (r: Button)
        ensures
            r@ == (ButtonModel { selected: Some(selected), ..self@ }),
    {
        Button { selected: Some(selected), ..self }
    }

    /// The label given by the user.
    pub fn label_text(&self) -> (r: &str)
        ensures
            r@ == self@.label,
    {
        self.label.as_str()
    }

    /// The label shown.
    pub fn display_label(&self) -> (r: &str)
        ensures
            r@ == self@.display_label,
    {
        self.display_label.as_str()
    }

    /// The variant, `Primary` when unset.
    pub fn resolved_variant(&self) -> (r: ButtonVariant)
        ensures
            r == self@.variant.unwrap_or(ButtonVariant::Primary),
    {
        match self.variant {
            Some(v) => v,
            None => ButtonVariant::Primary,
        }
    }

    /// The size, `Md` when unset.
    pub fn resolved_size(&self) -> (r: ButtonSize)
        ensures
            r == self@.size.unwrap_or(ButtonSize::Md),
    {
        match self.size {
            Some(s) => s,
            None => ButtonSize::Md,
        }
    }

    /// Whether the button is disabled.
    pub fn is_disabled(&self) -> (r: bool)
        ensures
            r == self@.disabled,
    {
        self.disabled
    }

    /// The busy state.
    pub fn activity(&self) -> (r: ButtonActivity)
        ensures
            r == self@.activity,
    {
        self.activity
    }

    /// The selected state.
    pub fn selected_state(&self) -> (r: Option<bool>)
        ensures
            r == self@.selected,
    {
        self.selected
    }

    /// The leading icon.
    pub fn start_icon_source(&self) -> (r: Option<&IconSource>)
        ensures
            r matches Some(i) ==> self@.start_icon == Some(i@),
            r is None ==> self@.start_icon is None,
    {
        self.start_icon.as_ref()
    }

    /// The trailing icon.
    pub fn end_icon_source(&self) -> (r: Option<&IconSource>)
        ensures
            r matches Some(i) ==> self@.end_icon == Some(i@),
            r is None ==> self@.end_icon is None,
    {
        self.end_icon.as_ref()
    }

    /// What the button shows and how it reacts, given whether it has a click handler.
    pub fn render_plan(&self, has_on_click: bool) -> (r: ButtonRenderPlan)
        ensures
            r == button_plan(self@, has_on_click),
    {
        let variant = self.resolved_variant();
        let busy = self.activity.is_busy();
        let loading = match self.activity {
            ButtonActivity::Loading => true,
            _ => false,
        };
        let progress = match self.activity {
            ButtonActivity::Progress => true,
            _ => false,
        };
        let selected_on = match self.selected {
            Some(true) => true,
            _ => false,
        };
        ButtonRenderPlan {
            variant,
            size: self.resolved_size(),
            selected_palette: selected_on,
            disabled_palette: self.disabled,
            show_spinner: loading,
            show_start_icon: !loading && self.start_icon.is_some(),
            show_end_icon: self.end_icon.is_some(),
            toggled: toggled_state(self.selected),
            selected_border: selected_on,
            show_progress: progress,
            click_enabled: has_on_click && !self.disabled && !busy,
            busy,
            cursor: resolved_cursor_style(self.disabled, busy, None),
            focusable: !self.disabled,
            hover_feedback: !self.disabled,
            underline_on_hover: !self.disabled && variant.underlines_on_hover(),
            pressed_feedback: !self.disabled && !busy,
        }
    }
}

impl Disableable for Button {
    fn disabled(self, disabled: bool) -> (r: Button)
        ensures
            r@ == (ButtonModel { disabled, ..self@ }),
    {
        Button { disabled, ..self }
    }
}

/// What a button shows and how it reacts.
#[derive(Clone, Copy, Debug, PartialEq, Eq, Structural)]
pub struct ButtonRenderPlan {
    /// The variant used.
    pub variant: ButtonVariant,
    /// The size used.
    pub size: ButtonSize,
    /// The colours of the selected state are used.
    pub selected_palette: bool,
    /// The colours of the disabled state are shown.
    pub disabled_palette: bool,
    /// A spinner is shown in place of the leading icon.
    pub show_spinner: bool,
    /// The leading icon is shown.
    pub show_start_icon: bool,
    /// The trailing icon is shown.
    pub show_end_icon: bool,
    /// Toggle state exposed to assistive technology.
    pub toggled: Option<Toggled>,
    /// An inner border marks the selected state.
    pub selected_border: bool,
    /// A progress bar is drawn.
    pub show_progress: bool,
    /// Clicks and keys reach the handler.
    pub click_enabled: bool,
    /// The button is busy: activation is swallowed.
    pub busy: bool,
    /// Cursor over the button.
    pub cursor: CursorKind,
    /// The button takes keyboard focus.
    pub focusable: bool,
    /// Hovering changes the colours.
    pub hover_feedback: bool,
    /// Hovering underlines the label.
    pub underline_on_hover: bool,
    /// Pressing changes the colours.
    pub pressed_feedback: bool,
}

/// The render plan of a button.
pub open spec fn button_plan(m: ButtonModel, has_on_click: bool) -> ButtonRenderPlan {
    let variant = m.variant.unwrap_or(ButtonVariant::Primary);
    let busy = !(m.activity is Idle);
    let loading = m.activity is Loading;
    let selected_on = m.selected == Some(true);
    ButtonRenderPlan {
        variant,
        size: m.size.unwrap_or(ButtonSize::Md),
        selected_palette: selected_on,
        disabled_palette: m.disabled,
        show_spinner: loading,
        show_start_icon: !loading && m.start_icon is Some,
        show_end_icon: m.end_icon is Some,
        toggled: match m.selected {
            Some(true) => Some(Toggled::True),
            Some(false) => Some(Toggled::False),
            None => None,
        },
        selected_border: selected_on,
        show_progress: m.activity is Progress,
        click_enabled: has_on_click && !m.disabled && !busy,
        busy,
        cursor: if m.disabled {
            CursorKind::NotAllowed
        } else if busy {
            CursorKind::Arrow
        } else {
            CursorKind::PointingHand
        },
        focusable: !m.disabled,
        hover_feedback: !m.disabled,
        underline_on_hover: !m.disabled && variant is Link,
        pressed_feedback: !m.disabled && !busy,
    }
}

/// A disabled or busy button never reaches its handler.
pub proof fn lemma_inactive_button_not_clickable(m: ButtonModel, has_on_click: bool)
    requires
        m.disabled || !(m.activity is Idle),
    ensures
        !button_plan(m, has_on_click).click_enabled,
{
}

/// The accessible name is the label as given: auto-spacing changes only the shown label,
/// and only for two Han characters.
pub proof fn lemma_spacing_keeps_other_labels(label: Seq<char>, auto: Option<bool>)
    requires
        !(label.len() == 2 && is_han_script(label[0]) && is_han_script(label[1])),
    ensures
        display_of(label, auto) == label,
{
}

} // verus!
