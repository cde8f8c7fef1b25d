//! Icon-only buttons: variants, and what such a button shows and answers.
use vstd::prelude::*;

use crate::control::CursorKind;
use crate::size::{ComponentSize, ComponentSizeSettings};
use crate::icon::IconSource;
use crate::tooltip::{Tooltip, TooltipPlacement};
use crate::traits::{Disableable, Sizable};

verus! {

/// Visual variant of an icon button; there is deliberately no link variant.
#[derive(Clone, Copy, Debug, PartialEq, Eq, Structural)]
pub enum IconButtonVariant {
    /// Main action; the default.
    Primary,
    /// Secondary action with a border.
    Outline,
    /// Transparent, with feedback on hover.
    Transparent,
    /// Dangerous or irreversible action.
    Destructive,
    /// Secondary solid button.
    Secondary,
}

/// Theme key of an icon button variant.
pub open spec fn icon_button_variant_key(v: IconButtonVariant) -> Seq<char> {
    match v {
        IconButtonVariant::Primary => "primary"@,
        IconButtonVariant::Outline => "outline"@,
        IconButtonVariant::Transparent => "ghost"@,
        IconButtonVariant::Destructive => "destructive"@,
        IconButtonVariant::Secondary => "secondary"@,
    }
}

impl IconButtonVariant {
    /// The theme key of the variant.
    pub fn token_key(self) -> (r: &'static str)
        ensures
            r@ == icon_button_variant_key(self),
    {
        match self {
            IconButtonVariant::Primary => "primary",
            IconButtonVariant::Outline => "outline",
            IconButtonVariant::Transparent => "ghost",
            IconButtonVariant::Destructive => "destructive",
            IconButtonVariant::Secondary => "secondary",
        }
    }
}

/// An icon button's settings (its colour and handlers stay with the host, which records
/// here whether an explicit colour is set).
#[derive(Clone, Debug)]
pub struct IconButton {
    /// The icon shown.
    pub icon: IconSource,
    /// The accessible name; an icon-only button should have one.
    pub aria_label: Option<String>,
    /// The accessible description.
    pub aria_description: Option<String>,
    /// The variant, if set.
    pub variant: Option<IconButtonVariant>,
    /// The explicit size.
    pub size: Option<ComponentSize>,
    /// Disabled.
    pub disabled: bool,
    /// The cursor while enabled.
    pub cursor_style: Option<CursorKind>,
    /// An explicit icon colour is set.
    pub has_icon_color: bool,
    /// The tooltip, if any; it is neither the accessible name nor the description.
    pub tooltip: Option<Tooltip>,
    /// Where the tooltip goes.
    pub tooltip_placement: TooltipPlacement,
}

impl IconButton {
    /// An enabled button showing `icon`, with nothing else set and the tooltip placed
    /// below.
    pub fn new(icon: IconSource) -> (r: IconButton)
        ensures
            r == (IconButton {
                icon,
                aria_label: None,
                aria_description: None,
                variant: None,
                size: None,
                disabled: false,
                cursor_style: None,
                has_icon_color: false,
                tooltip: None,
                tooltip_placement: TooltipPlacement::Bottom,
            }),
    {
        IconButton {
            icon,
            aria_label: None,
            aria_description: None,
            variant: None,
            size: None,
            disabled: false,
            cursor_style: None,
            has_icon_color: false,
            tooltip: None,
            tooltip_placement: TooltipPlacement::Bottom,
        }
    }

    /// Sets the accessible name (it is not shown).
    pub fn aria_label(self, label: &str) -> (r: IconButton)
        ensures
            r.aria_label matches Some(l) && l@ == label@,
            r == (IconButton { aria_label: r.aria_label, ..self }),
    {
        IconButton { aria_label: Some(label.to_string()), ..self }
    }

    /// Sets the accessible description.
    pub fn aria_description(self, description: &str) -> (r: IconButton)
        ensures
            r.aria_description matches Some(d) && d@ == description@,
            r == (IconButton { aria_description: r.aria_description, ..self }),
    {
        IconButton { aria_description: Some(description.to_string()), ..self }
    }

    /// Sets the variant.
    pub fn variant(self, variant: IconButtonVariant) -> (r: IconButton)
        ensures
            r == (IconButton { variant: Some(variant), ..self }),
    {
        IconButton { variant: Some(variant), ..self }
    }

    /// Sets the cursor shown while enabled.
    pub fn cursor_style(self, cursor_style: CursorKind) -> (r: IconButton)
        ensures
            r == (IconButton { cursor_style: Some(cursor_style), ..self }),
    {
        IconButton { cursor_style: Some(cursor_style), ..self }
    }

    /// Records that an explicit icon colour is set.
    pub fn icon_color(self) -> (r: IconButton)
        ensures
            r == (IconButton { has_icon_color: true, ..self }),
    {
        IconButton { has_icon_color: true, ..self }
    }

    /// Sets the tooltip.
    pub fn tooltip(self, tooltip: Tooltip) -> (r: IconButton)
        ensures
            r == (IconButton { tooltip: Some(tooltip), ..self }),
    {
        IconButton { tooltip: Some(tooltip), ..self }
    }

    /// Sets where the tooltip goes.
    pub fn tooltip_placement(self, placement: TooltipPlacement) -> (r: IconButton)
        ensures
            r == (IconButton { tooltip_placement: placement, ..self }),
    {
        IconButton { tooltip_placement: placement, ..self }
    }

    /// The variant, `Primary` when unset.
    pub fn resolved_variant(&self) -> (r: IconButtonVariant)
        ensures
            r == self.variant.unwrap_or(IconButtonVariant::Primary),
    {
        match self.variant {
            Some(v) => v,
            None => IconButtonVariant::Primary,
        }
    }

    /// The size: the explicit one, else the application's default.
    pub fn resolved_size(&self, settings: &ComponentSizeSettings) -> (r: ComponentSize)
        ensures
            r == (match self.size {
                Some(s) => s,
                None => settings.size.unwrap_or(ComponentSize::Md),
            }),
    {
        crate::size::resolved_size(self.size, settings)
    }

    /// The icon takes the explicit colour only while enabled; a disabled button shows the
    /// theme's disabled foreground.
    pub fn uses_icon_color(&self) -> (r: bool)
        ensures
            r == (self.has_icon_color && !self.disabled),
    {
        self.has_icon_color && !self.disabled
    }

    /// Clicks and keys reach the handler only while enabled.
    pub fn click_enabled(&self, has_on_click: bool) -> (r: bool)
        ensures
            r == (has_on_click && !self.disabled),
    {
        has_on_click && !self.disabled
    }

    /// The cursor over the button.
    pub fn cursor(&self) -> (r: CursorKind)
        ensures
            r == (if self.disabled {
                CursorKind::NotAllowed
            } else {
                self.cursor_style.unwrap_or(CursorKind::PointingHand)
            }),
    {
        crate::control::resolved_cursor_style(self.disabled, false, self.cursor_style)
    }
}

impl Disableable for IconButton {
    fn disabled(self, disabled: bool) -> (r: IconButton)
        ensures
            r == (IconButton { disabled, ..self }),
    {
        IconButton { disabled, ..self }
    }
}

impl Sizable for IconButton {
    fn size(self, size: ComponentSize) -> (r: IconButton)
        ensures
            r == (IconButton { size: Some(size), ..self }),
    {
        IconButton { size: Some(size), ..self }
    }
}

} // verus!
