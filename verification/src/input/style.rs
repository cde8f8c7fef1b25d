//! Variants and types of inputs, their roles, the events an input publishes, and what a
//! change of settings asks of the host.
use vstd::prelude::*;

use crate::control::CursorKind;

verus! {

/// Visual variant of an input.
#[derive(Clone, Copy, Debug, PartialEq, Eq, Structural)]
pub enum InputVariant {
    /// Full border; the default.
    Outline,
    /// Filled background with a steady border.
    Filled,
    /// No visible border or background at rest.
    Borderless,
    /// Only an underline.
    Underline,
}

/// Theme key of an input variant.
pub open spec fn input_variant_key(v: InputVariant) -> Seq<char> {
    match v {
        InputVariant::Outline => "outline"@,
        InputVariant::Filled => "filled"@,
        InputVariant::Borderless => "borderless"@,
        InputVariant::Underline => "underline"@,
    }
}

impl InputVariant {
    /// The theme key of the variant.
    pub fn token_key(self) -> (r: &'static str)
        ensures
            r@ == input_variant_key(self),
    {
        match self {
            InputVariant::Outline => "outline",
            InputVariant::Filled => "filled",
            InputVariant::Borderless => "borderless",
            InputVariant::Underline => "underline",
        }
    }

    /// The underline variant has square corners; the others use the theme's radius.
    pub fn has_square_corners(self) -> (r: bool)
        ensures
            r == (self is Underline),
    {
        match self {
            InputVariant::Underline => true,
            _ => false,
        }
    }
}

impl Default for InputVariant {
    fn default() -> (r: Self)
        ensures
            r == InputVariant::Outline,
    {
        InputVariant::Outline
    }
}

/// Role of a text input for assistive technology.
#[derive(Clone, Copy, Debug, PartialEq, Eq, Structural)]
pub enum InputRole {
    /// Plain text.
    TextInput,
    /// Search field.
    SearchInput,
    /// Password field.
    PasswordInput,
    /// E-mail address.
    EmailInput,
    /// Phone number.
    PhoneNumberInput,
    /// URL.
    UrlInput,
}

/// What an input holds; it decides the role and whether a password is masked, and
/// checks nothing.
#[derive(Clone, Copy, Debug, PartialEq, Eq, Structural)]
pub enum InputType {
    /// Plain single-line text; the default.
    Text,
    /// Search terms.
    Search,
    /// A password, masked unless revealed.
    Password,
    /// An e-mail address.
    Email,
    /// A phone number.
    Phone,
    /// A URL.
    Url,
}

impl InputType {
    /// The role of the input.
    pub fn role(self) -> (r: InputRole)
        ensures
            r == (match self {
                InputType::Text => InputRole::TextInput,
                InputType::Search => InputRole::SearchInput,
                InputType::Password => InputRole::PasswordInput,
                InputType::Email => InputRole::EmailInput,
                InputType::Phone => InputRole::PhoneNumberInput,
                InputType::Url => InputRole::UrlInput,
            }),
    {
        match self {
            InputType::Text => InputRole::TextInput,
            InputType::Search => InputRole::SearchInput,
            InputType::Password => InputRole::PasswordInput,
            InputType::Email => InputRole::EmailInput,
            InputType::Phone => InputRole::PhoneNumberInput,
            InputType::Url => InputRole::UrlInput,
        }
    }
}

impl Default for InputType {
    fn default() -> (r: Self)
        ensures
            r == InputType::Text,
    {
        InputType::Text
    }
}

/// Events an input publishes.
#[derive(Debug, PartialEq, Eq)]
pub enum InputEvent {
    /// An edit changed the value.
    Changed(String),
    /// The editor gained focus.
    Focused,
    /// The editor lost focus.
    Blurred,
    /// Enter was pressed outside a composition.
    Submitted(String),
}

/// The settings of an input that its editing state depends on.
#[derive(Clone, Copy, Debug, PartialEq, Eq, Structural)]
pub struct InputSettings {
    /// What the input holds.
    pub input_type: InputType,
    /// A password is shown in clear.
    pub password_revealed: bool,
    /// The input is disabled.
    pub disabled: bool,
    /// The input is read-only.
    pub read_only: bool,
}

/// A password input whose password is not revealed shows a mask.
pub open spec fn password_hidden_of(s: InputSettings) -> bool {
    s.input_type is Password && !s.password_revealed
}

impl InputSettings {
    /// A plain, editable text input.
    pub fn new() -> (r: InputSettings)
        ensures
            r == (InputSettings {
                input_type: InputType::Text,
                password_revealed: false,
                disabled: false,
                read_only: false,
            }),
    {
        InputSettings {
            input_type: InputType::Text,
            password_revealed: false,
            disabled: false,
            read_only: false,
        }
    }

    /// The text is shown as a mask.
    pub fn password_hidden(&self) -> (r: bool)
        ensures
            r == password_hidden_of(*self),
    {
        match self.input_type {
            InputType::Password => !self.password_revealed,
            _ => false,
        }
    }
}

/// What the host does when an input's settings change.
#[derive(Clone, Copy, Debug, PartialEq, Eq, Structural)]
pub struct ConfigureOutcome {
    /// The laid-out text is out of date (the type or the masking changed).
    pub relayout: bool,
    /// The caret's blink restarts (editability changed).
    pub restart_caret: bool,
    /// The input just became disabled: a focused editor gives up focus.
    pub blur_if_focused: bool,
}

/// What changing the settings from `old` to `new` asks of the host.
pub fn configure_outcome(old: InputSettings, new: InputSettings) -> (r: ConfigureOutcome)
    ensures
        r.relayout == (old.input_type != new.input_type || password_hidden_of(old)
            != password_hidden_of(new)),
        r.restart_caret == (old.disabled != new.disabled || old.read_only != new.read_only),
        r.blur_if_focused == (!old.disabled && new.disabled),
{
    let type_changed = old.input_type != new.input_type;
    let mask_changed = old.password_hidden() != new.password_hidden();
    ConfigureOutcome {
        relayout: type_changed || mask_changed,
        restart_caret: old.disabled != new.disabled || old.read_only != new.read_only,
        blur_if_focused: !old.disabled && new.disabled,
    }
}


/// The icon shown while an input is invalid.
pub const INVALID_ICON: &'static str = "components/input/invalid.svg";

/// The colour set an input rests in.
#[derive(Clone, Copy, Debug, PartialEq, Eq, Structural)]
pub enum InputTone {
    /// Editable and valid.
    Normal,
    /// Marked invalid.
    Invalid,
    /// Read-only.
    ReadOnly,
    /// Disabled.
    Disabled,
}

/// The colour set of a focused input.
#[derive(Clone, Copy, Debug, PartialEq, Eq, Structural)]
pub enum InputFocusTone {
    /// Focused and valid.
    Focused,
    /// Focused and invalid.
    InvalidFocused,
}

/// What an input draws around its text and how it reacts to hover and focus.
#[derive(Clone, Copy, Debug, PartialEq, Eq, Structural)]
pub struct InputRenderPlan {
    /// The resting colours.
    pub tone: InputTone,
    /// The colours while focused.
    pub focus_tone: InputFocusTone,
    /// The invalid icon is shown after the text.
    pub shows_invalid_icon: bool,
    /// Hovering changes the colours.
    pub hover_feedback: bool,
    /// Hovering changes the border colour too.
    pub hover_border: bool,
    /// A pointer focus draws the focus ring (borderless inputs only).
    pub pointer_focus_ring: bool,
    /// A keyboard focus draws the focus ring.
    pub keyboard_focus_ring: bool,
    /// Only the bottom border is drawn.
    pub bottom_border_only: bool,
    /// The corners are square.
    pub square_corners: bool,
    /// The content is clipped to the rounded frame, for an attached suffix.
    pub clips_content: bool,
}

/// The render plan of an input: disabled wins over invalid, which wins over read-only.
pub fn input_render_plan(
    variant: InputVariant,
    disabled: bool,
    read_only: bool,
    invalid: bool,
    has_attached_suffix: bool,
) -> (r: InputRenderPlan)
    ensures
        r.tone == (if disabled {
            InputTone::Disabled
        } else if invalid {
            InputTone::Invalid
        } else if read_only {
            InputTone::ReadOnly
        } else {
            InputTone::Normal
        }),
        r.focus_tone == (if invalid {
            InputFocusTone::InvalidFocused
        } else {
            InputFocusTone::Focused
        }),
        r.shows_invalid_icon == invalid,
        r.hover_feedback == (!disabled && !read_only && !invalid),
        r.hover_border == (!disabled && !read_only && !invalid && !(variant is Borderless)),
        r.pointer_focus_ring == (!disabled && variant is Borderless),
        r.keyboard_focus_ring == !disabled,
        r.bottom_border_only == (variant is Underline),
        r.square_corners == (variant is Underline),
        r.clips_content == has_attached_suffix,
{
    let tone = if disabled {
        InputTone::Disabled
    } else if invalid {
        InputTone::Invalid
    } else if read_only {
        InputTone::ReadOnly
    } else {
        InputTone::Normal
    };
    let borderless = match variant {
        InputVariant::Borderless => true,
        _ => false,
    };
    let hover = !disabled && !read_only && !invalid;
    InputRenderPlan {
        tone,
        focus_tone: if invalid {
            InputFocusTone::InvalidFocused
        } else {
            InputFocusTone::Focused
        },
        shows_invalid_icon: invalid,
        hover_feedback: hover,
        hover_border: hover && !borderless,
        pointer_focus_ring: !disabled && borderless,
        keyboard_focus_ring: !disabled,
        bottom_border_only: variant.has_square_corners(),
        square_corners: variant.has_square_corners(),
        clips_content: has_attached_suffix,
    }
}


/// The theme state key of an input's text editor: disabled first, then invalid (with or
/// without a visible focus), a visible focus, read-only, and normal.
pub open spec fn editor_state_key_of(disabled: bool, invalid: bool, focus_visible: bool, read_only: bool) -> Seq<char> {
    if disabled {
        "disabled"@
    } else if invalid && focus_visible {
        "invalid-focus-visible"@
    } else if invalid {
        "invalid"@
    } else if focus_visible {
        "focus-visible"@
    } else if read_only {
        "read-only"@
    } else {
        "normal"@
    }
}

/// The theme state key of an input's text editor.
pub fn editor_state_key(disabled: bool, invalid: bool, focus_visible: bool, read_only: bool) -> (r:
    &'static str)
    ensures
        r@ == editor_state_key_of(disabled, invalid, focus_visible, read_only),
{
    if disabled {
        "disabled"
    } else if invalid && focus_visible {
        "invalid-focus-visible"
    } else if invalid {
        "invalid"
    } else if focus_visible {
        "focus-visible"
    } else if read_only {
        "read-only"
    } else {
        "normal"
    }
}

/// The cursor over an input's text: "not allowed" when disabled, else the text cursor.
pub fn editor_cursor(disabled: bool) -> (r: CursorKind)
    ensures
        r == (if disabled {
            CursorKind::NotAllowed
        } else {
            CursorKind::IBeam
        }),
{
    if disabled {
        CursorKind::NotAllowed
    } else {
        CursorKind::IBeam
    }
}

} // verus!
