//! The input's built-in clear action: when its button shows, and how the button is set up.
use vstd::prelude::*;

use crate::icon_button::{IconButton, IconButtonVariant};
use crate::size::ComponentSize;
use crate::icon::IconSource;
use crate::tooltip::{same_tooltip, Tooltip, TooltipPlacement};

verus! {

/// The icon of the clear button.
pub const CLEAR_ICON: &'static str = "components/input/clear.svg";

/// The clear action of an input: the accessible name of its icon-only button (required),
/// and an optional tooltip.
#[derive(Debug)]
pub struct InputClear {
    /// Accessible name of the button.
    pub aria_label: String,
    /// The button's tooltip, if any.
    pub tooltip: Option<Tooltip>,
    /// Preferred placement of the tooltip.
    pub tooltip_placement: TooltipPlacement,
}

impl InputClear {
    /// A clear action named `aria_label`, without a tooltip.
    pub fn new(aria_label: &str) -> (r: InputClear)
        ensures
            r.aria_label@ == aria_label@,
            r.tooltip is None,
            r.tooltip_placement == TooltipPlacement::Bottom,
    {
        InputClear {
            aria_label: aria_label.to_string(),
            tooltip: None,
            tooltip_placement: TooltipPlacement::Bottom,
        }
    }

    /// Gives the button a tooltip.
    pub fn tooltip(self, tooltip: Tooltip) -> (r: InputClear)
        ensures
            r == (InputClear { tooltip: Some(tooltip), ..self }),
    {
        InputClear { tooltip: Some(tooltip), ..self }
    }

    /// Sets where the tooltip prefers to show.
    pub fn tooltip_placement(self, placement: TooltipPlacement) -> (r: InputClear)
        ensures
            r == (InputClear { tooltip_placement: placement, ..self }),
    {
        InputClear { tooltip_placement: placement, ..self }
    }
}

/// The clear button shows while there is text to clear and the input can be edited.
pub fn clear_button_visible(value_is_empty: bool, disabled: bool, read_only: bool) -> (r: bool)
    ensures
        r == (!value_is_empty && !disabled && !read_only),
{
    !value_is_empty && !disabled && !read_only
}

/// The clear button: an extra-small transparent icon button showing the clear icon,
/// named by the action and carrying its tooltip.
pub fn clear_button(clear: &InputClear) -> (r: IconButton)
    ensures
        r.icon@ == CLEAR_ICON@,
        r.aria_label matches Some(l) && l@ == clear.aria_label@,
        r.aria_description is None,
        r.variant == Some(IconButtonVariant::Transparent),
        r.size == Some(ComponentSize::Xs),
        !r.disabled,
        r.cursor_style is None,
        !r.has_icon_color,
        same_tooltip(r.tooltip, clear.tooltip),
        r.tooltip_placement == clear.tooltip_placement,
{
    let tooltip = match &clear.tooltip {
        Some(t) => Some(t.duplicate()),
        None => None,
    };
    IconButton {
        icon: IconSource::asset(CLEAR_ICON),
        aria_label: Some(clear.aria_label.clone()),
        aria_description: None,
        variant: Some(IconButtonVariant::Transparent),
        size: Some(ComponentSize::Xs),
        disabled: false,
        cursor_style: None,
        has_icon_color: false,
        tooltip,
        tooltip_placement: clear.tooltip_placement,
    }
}

} // verus!
