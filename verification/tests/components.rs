use vektra::checkbox::{
    indicator_icon_tone, next_checked, Checkbox, CheckboxVisualState, IndicatorTone,
    DEFAULT_CHECKED_ICON, DEFAULT_INDETERMINATE_ICON,
};
use vektra::control::{CursorKind, Toggled};
use vektra::icon::IconSource;
use vektra::icon_button::{IconButton, IconButtonVariant};
use vektra::radio::{
    enabled_position, navigation_target, radio_group_plan, radio_key_down, radio_key_up,
    should_request_change, RadioKeyOutcome,
};
use vektra::size::{ComponentSize, ComponentSizeSettings};
use vektra::switch::{
    SwitchActivation, SwitchContent, SwitchMotionState, Switch, DEFAULT_SWITCH_TRANSITION_NS,
};
use vektra::tooltip::{Tooltip, TooltipPlacement};
use vektra::traits::{Disableable, Sizable};

#[test]
fn checkbox_visual_states() {
    assert_eq!(CheckboxVisualState::new(false, false), CheckboxVisualState::Unchecked);
    assert_eq!(CheckboxVisualState::new(true, false), CheckboxVisualState::Checked);
    assert_eq!(CheckboxVisualState::new(true, true), CheckboxVisualState::Indeterminate);
    assert_eq!(CheckboxVisualState::new(false, true), CheckboxVisualState::Indeterminate);
    assert_eq!(CheckboxVisualState::Unchecked.token_key(), "unchecked");
    assert_eq!(CheckboxVisualState::Checked.token_key(), "checked");
    assert_eq!(CheckboxVisualState::Indeterminate.token_key(), "indeterminate");
}

#[test]
fn checkbox_next_checked() {
    assert!(next_checked(false, false));
    assert!(!next_checked(true, false));
    assert!(next_checked(true, true));
    assert!(next_checked(false, true));
    assert!(next_checked(next_checked(true, false), false));
}

#[test]
fn checkbox_toggled_states() {
    assert_eq!(vektra::checkbox::toggled_state(CheckboxVisualState::Unchecked), Toggled::False);
    assert_eq!(vektra::checkbox::toggled_state(CheckboxVisualState::Checked), Toggled::True);
    assert_eq!(
        vektra::checkbox::toggled_state(CheckboxVisualState::Indeterminate),
        Toggled::Mixed
    );
}

#[test]
fn checkbox_indicator_tones() {
    assert_eq!(
        indicator_icon_tone(CheckboxVisualState::Unchecked, true, false),
        IndicatorTone::Border
    );
    assert_eq!(
        indicator_icon_tone(CheckboxVisualState::Checked, true, false),
        IndicatorTone::BoxBackground
    );
    assert_eq!(
        indicator_icon_tone(CheckboxVisualState::Checked, true, true),
        IndicatorTone::Icon
    );
    assert_eq!(
        indicator_icon_tone(CheckboxVisualState::Checked, false, false),
        IndicatorTone::Icon
    );
}

#[test]
fn checkbox_default_icons() {
    let checkbox = Checkbox::new();
    assert!(checkbox.icon_for_state(CheckboxVisualState::Unchecked).is_none());
    let checked = checkbox.icon_for_state(CheckboxVisualState::Checked).unwrap();
    assert_eq!(checked.path(), DEFAULT_CHECKED_ICON);
    assert_eq!(checked.path(), "components/checkbox/check.svg");
    let mixed = checkbox.icon_for_state(CheckboxVisualState::Indeterminate).unwrap();
    assert_eq!(mixed.path(), DEFAULT_INDETERMINATE_ICON);
    assert_eq!(mixed.path(), "components/checkbox/minus.svg");
}

#[test]
fn checkbox_custom_icons() {
    let checkbox = Checkbox::new()
        .indicator_icons(IconSource::asset("icons/off.svg"), IconSource::asset("icons/on.svg"));
    assert!(checkbox.uses_icon_indicator());
    assert_eq!(
        checkbox.icon_for_state(CheckboxVisualState::Unchecked).unwrap().path(),
        "icons/off.svg"
    );
    assert_eq!(
        checkbox.icon_for_state(CheckboxVisualState::Checked).unwrap().path(),
        "icons/on.svg"
    );
    let plan = checkbox.render_plan(true);
    assert!(!plan.draws_box);
    assert_eq!(plan.indicator_tone, IndicatorTone::Border);
}

#[test]
fn checkbox_accessible_label_prefers_aria() {
    let plain = Checkbox::new().label("同意");
    assert_eq!(plain.accessible_label(), Some("同意".to_string()));
    let aria = plain.aria_label("同意条款");
    assert_eq!(aria.accessible_label(), Some("同意条款".to_string()));
    assert_eq!(Checkbox::new().accessible_label(), None);
}

#[test]
fn checkbox_render_plan() {
    let checkbox = Checkbox::new().checked(true);
    assert!(checkbox.is_checked());
    assert!(!checkbox.is_indeterminate());
    let plan = checkbox.render_plan(true);
    assert_eq!(plan.state, CheckboxVisualState::Checked);
    assert_eq!(plan.toggled, Toggled::True);
    assert!(plan.change_enabled);
    assert!(!plan.next_checked);
    assert!(plan.draws_box);
    assert_eq!(plan.cursor, CursorKind::PointingHand);
    assert!(plan.focusable);
    let mixed = checkbox.indeterminate(true).render_plan(true);
    assert_eq!(mixed.toggled, Toggled::Mixed);
    assert!(mixed.next_checked);
}

#[test]
fn disabled_checkbox_does_not_change() {
    let checkbox = Checkbox::new().cursor_style(CursorKind::IBeam).disabled(true);
    assert!(checkbox.is_disabled());
    let plan = checkbox.render_plan(true);
    assert!(!plan.change_enabled);
    assert!(plan.disabled_palette);
    assert!(!plan.focusable);
    assert!(!plan.feedback);
    assert_eq!(plan.cursor, CursorKind::NotAllowed);
}

#[test]
fn checkbox_size_resolution() {
    let settings = ComponentSizeSettings { size: Some(ComponentSize::Lg) };
    let checkbox = Checkbox::new();
    assert_eq!(checkbox.explicit_size(), None);
    assert_eq!(checkbox.resolved_size(&settings), ComponentSize::Lg);
    let small = checkbox.size(ComponentSize::Xs);
    assert_eq!(small.resolved_size(&settings), ComponentSize::Xs);
}

#[test]
fn icon_button_defaults_and_keys() {
    let button = IconButton::new(IconSource::asset("icons/close.svg"));
    assert_eq!(button.icon.path(), "icons/close.svg");
    assert_eq!(button.aria_label, None);
    assert_eq!(button.aria_description, None);
    assert!(button.tooltip.is_none());
    assert_eq!(button.resolved_variant(), IconButtonVariant::Primary);
    assert_eq!(button.tooltip_placement, TooltipPlacement::Bottom);
    assert_eq!(IconButtonVariant::Transparent.token_key(), "ghost");
    assert_eq!(IconButtonVariant::Destructive.token_key(), "destructive");
    assert!(button.click_enabled(true));
    assert!(!button.click_enabled(false));
    assert_eq!(button.cursor(), CursorKind::PointingHand);
    let settings = ComponentSizeSettings::new();
    assert_eq!(button.resolved_size(&settings), ComponentSize::Md);
}

#[test]
fn disabled_icon_button_drops_icon_color() {
    let button = IconButton::new(IconSource::asset("icons/trash.svg"))
        .variant(IconButtonVariant::Outline)
        .icon_color()
        .aria_label("Delete")
        .aria_description("Removes the row")
        .tooltip(Tooltip::new("Delete row"))
        .tooltip_placement(TooltipPlacement::TopStart);
    assert!(button.uses_icon_color());
    assert_eq!(button.aria_label.as_deref(), Some("Delete"));
    assert_eq!(button.aria_description.as_deref(), Some("Removes the row"));
    assert_eq!(button.tooltip.as_ref().map(|t| t.text_value()), Some("Delete row"));
    let disabled = button.disabled(true);
    assert!(!disabled.uses_icon_color());
    assert!(!disabled.click_enabled(true));
    assert_eq!(disabled.cursor(), CursorKind::NotAllowed);
    assert_eq!(disabled.resolved_variant(), IconButtonVariant::Outline);
    let sized = disabled.size(ComponentSize::Sm);
    assert_eq!(sized.resolved_size(&ComponentSizeSettings::new()), ComponentSize::Sm);
}

#[test]
fn radio_navigation_wraps() {
    assert_eq!(navigation_target("down", 2, 3), Some(0));
    assert_eq!(navigation_target("right", 0, 3), Some(1));
    assert_eq!(navigation_target("up", 0, 3), Some(2));
    assert_eq!(navigation_target("left", 2, 3), Some(1));
    assert_eq!(navigation_target("home", 2, 3), Some(0));
    assert_eq!(navigation_target("end", 0, 3), Some(2));
    assert_eq!(navigation_target("tab", 0, 3), None);
    assert_eq!(navigation_target("down", 0, 0), None);
}

#[test]
fn radio_group_tab_stop_prefers_selected() {
    let disabled = vec![false, true, false, false];
    let selected = vec![false, false, false, true];
    let plan = radio_group_plan(false, &disabled, &selected);
    assert_eq!(plan.effective_disabled, vec![false, true, false, false]);
    assert_eq!(plan.enabled, vec![0, 2, 3]);
    assert_eq!(plan.tab_stop, Some(3));
    let none_selected = radio_group_plan(false, &vec![true, false], &vec![false, false]);
    assert_eq!(none_selected.tab_stop, Some(1));
    let disabled_selected = radio_group_plan(false, &vec![false, true], &vec![false, true]);
    assert_eq!(disabled_selected.tab_stop, Some(0));
    let group_off = radio_group_plan(true, &vec![false, false], &vec![true, false]);
    assert_eq!(group_off.tab_stop, None);
    assert!(group_off.enabled.is_empty());
}

#[test]
fn radio_keys_skip_disabled() {
    let plan = radio_group_plan(false, &vec![false, true, false], &vec![true, false, false]);
    assert_eq!(radio_key_down(&plan, 0, "down", true), RadioKeyOutcome::MoveTo(2));
    assert_eq!(radio_key_down(&plan, 2, "down", true), RadioKeyOutcome::MoveTo(0));
    assert_eq!(radio_key_down(&plan, 0, "up", true), RadioKeyOutcome::MoveTo(2));
    assert_eq!(radio_key_down(&plan, 0, "space", true), RadioKeyOutcome::Swallow);
    assert_eq!(radio_key_down(&plan, 0, "down", false), RadioKeyOutcome::Ignore);
    assert_eq!(radio_key_down(&plan, 1, "down", true), RadioKeyOutcome::Ignore);
    assert_eq!(radio_key_down(&plan, 1, "space", true), RadioKeyOutcome::Ignore);
    assert_eq!(radio_key_down(&plan, 0, "a", true), RadioKeyOutcome::Ignore);
    assert_eq!(enabled_position(&plan.enabled, 2), Some(1));
    assert_eq!(enabled_position(&plan.enabled, 1), None);
}

#[test]
fn radio_change_requests() {
    assert!(should_request_change(false, true));
    assert!(!should_request_change(true, true));
    assert!(!should_request_change(false, false));
    assert_eq!(vektra::radio::toggled_state(true), Toggled::True);
    assert_eq!(vektra::radio::toggled_state(false), Toggled::False);
}

#[test]
fn switch_defaults() {
    let switch = Switch::new();
    assert_eq!(switch.transition_ns, DEFAULT_SWITCH_TRANSITION_NS);
    assert_eq!(
        DEFAULT_SWITCH_TRANSITION_NS,
        std::time::Duration::from_millis(180).as_nanos()
    );
    let plan = switch.on_change().render_plan();
    assert_eq!(plan.toggled, Toggled::False);
    assert_eq!(plan.activation, Some(SwitchActivation::Change));
    assert!(plan.next_checked);
    assert!(!plan.has_content);
    assert_eq!(plan.cursor, CursorKind::PointingHand);
}

#[test]
fn loading_or_disabled_switch_does_not_activate() {
    let switch = Switch::new().checked(true).on_click().loading(true);
    let plan = switch.render_plan();
    assert_eq!(plan.activation, None);
    assert!(plan.busy);
    assert!(!plan.feedback);
    assert_eq!(plan.cursor, CursorKind::Arrow);
    assert!(!plan.next_checked);
    let disabled = Switch::new().on_click().disabled(true).render_plan();
    assert_eq!(disabled.activation, None);
    assert_eq!(disabled.cursor, CursorKind::NotAllowed);
    assert!(!disabled.focusable);
    assert!(Switch::new().unchecked_content().render_plan().has_content);
    let content = Switch::new().checked_content().size(ComponentSize::Sm);
    assert!(content.render_plan().has_content);
    assert_eq!(content.size, Some(ComponentSize::Sm));
}

#[test]
fn switch_labels_and_accessible_name() {
    let switch = Switch::new();
    assert_eq!(switch.label, None);
    assert_eq!(switch.aria_label, None);
    assert_eq!(switch.aria_description, None);
    assert_eq!(switch.accessible_label(), None);
    let labelled = Switch::new().label("Wi-Fi");
    assert_eq!(labelled.label.as_deref(), Some("Wi-Fi"));
    assert_eq!(labelled.accessible_label().as_deref(), Some("Wi-Fi"));
    let named = labelled.aria_label("Wireless").aria_description("Turns the radio on");
    assert_eq!(named.accessible_label().as_deref(), Some("Wireless"));
    assert_eq!(named.aria_description.as_deref(), Some("Turns the radio on"));
    assert!(!named.checked);
}

#[test]
fn sub_millisecond_switch_transition_still_animates() {
    let half_ms = std::time::Duration::from_micros(500).as_nanos();
    let switch = Switch::new().transition_duration(half_ms);
    assert_eq!(switch.transition_ns, 500_000);
    let mut motion = SwitchMotionState::new(false, switch.transition_ns);
    motion.update(true, switch.transition_ns, false);
    assert!(motion.motion().animate);
    assert_eq!(motion.motion().duration_ns, 500_000);
}

#[test]
fn switch_content_builders() {
    match SwitchContent::text("开") {
        SwitchContent::Text(t) => assert_eq!(t, "开"),
        _ => panic!("text content expected"),
    }
    match SwitchContent::icon_text(IconSource::asset("icons/sun.svg"), "日") {
        SwitchContent::IconText(i, t) => {
            assert_eq!(i.path(), "icons/sun.svg");
            assert_eq!(t, "日");
        }
        _ => panic!("icon and text content expected"),
    }
}

#[test]
fn switch_motion_animates_changes() {
    let mut motion = SwitchMotionState::new(false, 180);
    assert!(!motion.motion().animate);
    motion.update(true, 180, false);
    let m = motion.motion();
    assert!(m.animate);
    assert!(!m.from_checked);
    assert_eq!(m.generation, 1);
    assert_eq!(m.duration_ns, 180);
    motion.update(true, 200, false);
    assert_eq!(motion.motion().generation, 1);
    assert_eq!(motion.motion().duration_ns, 180);
    motion.update(false, 180, true);
    assert!(!motion.motion().animate);
    assert_eq!(motion.motion().generation, 2);
    motion.update(true, 0, false);
    assert!(!motion.motion().animate);
}

#[test]
fn radio_space_release_chooses() {
    assert!(radio_key_up("space", true));
    assert!(!radio_key_up("space", false));
    assert!(!radio_key_up("enter", true));
    assert!(!radio_key_up("down", true));
}
