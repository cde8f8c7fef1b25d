use vektra::button::{
    auto_spaced_label, char_is_white_space, toggled_state, ButtonActivity, Button, ButtonSize,
    ButtonVariant,
};
use vektra::control::{
    accessible_name, button_keys, checkbox_keys, click, key_down, key_up, pointer_down, resolved_cursor_style,
    switch_keys, ActivationKey, CursorKind, EventResponse, KeyboardButton, Toggled,
};
use vektra::icon::{IconSource, IntoIconSource};
use vektra::size::{resolved_size, ComponentSize, ComponentSizeSettings};

#[test]
fn custom_asset_path_is_preserved() {
    let source = IconSource::asset("icons/custom.svg");
    assert_eq!(source.path(), "icons/custom.svg");
}

#[test]
fn icon_source_converts_to_itself() {
    let source = IconSource::asset("icons/settings.svg").into_icon_source();
    assert_eq!(source.path(), "icons/settings.svg");
    assert_eq!(source.duplicate().path(), "icons/settings.svg");
}

#[test]
fn two_han_characters_get_a_space() {
    assert_eq!(auto_spaced_label("确定"), "确 定");
    assert_eq!(auto_spaced_label("保存"), "保 存");
}

#[test]
fn other_labels_are_unchanged() {
    assert_eq!(auto_spaced_label("OK"), "OK");
    assert_eq!(auto_spaced_label("保存修改"), "保存修改");
    assert_eq!(auto_spaced_label("确"), "确");
    assert_eq!(auto_spaced_label("确a"), "确a");
    assert_eq!(auto_spaced_label(""), "");
    assert_eq!(auto_spaced_label("确\u{3000}"), "确\u{3000}");
}

#[test]
fn white_space_property() {
    assert!(char_is_white_space(' '));
    assert!(char_is_white_space('\u{3000}'));
    assert!(char_is_white_space('\n'));
    assert!(!char_is_white_space('a'));
    assert!(!char_is_white_space('确'));
}

#[test]
fn button_token_keys() {
    assert_eq!(ButtonVariant::Primary.token_key(), "primary");
    assert_eq!(ButtonVariant::Outline.token_key(), "outline");
    assert_eq!(ButtonVariant::Transparent.token_key(), "ghost");
    assert_eq!(ButtonVariant::Destructive.token_key(), "destructive");
    assert_eq!(ButtonVariant::Secondary.token_key(), "secondary");
    assert_eq!(ButtonVariant::Link.token_key(), "link");
    assert_eq!(ButtonSize::Xs.token_key(), "xs");
    assert_eq!(ButtonSize::Sm.token_key(), "sm");
    assert_eq!(ButtonSize::Md.token_key(), "md");
    assert_eq!(ButtonSize::Lg.token_key(), "lg");
    assert!(ButtonVariant::Link.underlines_on_hover());
    assert!(!ButtonVariant::Primary.underlines_on_hover());
}

#[test]
fn button_activity_busy() {
    assert!(!ButtonActivity::Idle.is_busy());
    assert!(ButtonActivity::Loading.is_busy());
    assert!(ButtonActivity::Progress.is_busy());
}

#[test]
fn button_toggled_state() {
    assert_eq!(toggled_state(Some(true)), Some(Toggled::True));
    assert_eq!(toggled_state(Some(false)), Some(Toggled::False));
    assert_eq!(toggled_state(None), None);
}

#[test]
fn button_label_is_spaced_unless_disabled() {
    let button = Button::new().label("确定");
    assert_eq!(button.label_text(), "确定");
    assert_eq!(button.display_label(), "确 定");
    let plain = Button::new().auto_insert_space(false).label("确定");
    assert_eq!(plain.display_label(), "确定");
    let back = plain.auto_insert_space(true);
    assert_eq!(back.display_label(), "确 定");
}

#[test]
fn button_defaults() {
    let button = Button::new();
    assert_eq!(button.resolved_variant(), ButtonVariant::Primary);
    assert_eq!(button.resolved_size(), ButtonSize::Md);
    assert!(!button.is_disabled());
    assert_eq!(button.activity(), ButtonActivity::Idle);
    assert_eq!(button.selected_state(), None);
    assert!(button.start_icon_source().is_none());
    let plan = button.render_plan(true);
    assert!(plan.click_enabled);
    assert!(plan.focusable);
    assert_eq!(plan.cursor, CursorKind::PointingHand);
    assert!(!plan.show_spinner);
    assert_eq!(plan.toggled, None);
}

#[test]
fn loading_button_shows_spinner_and_is_busy() {
    let button = Button::new()
        .start_icon(IconSource::asset("icons/save.svg"))
        .loading(true);
    let plan = button.render_plan(true);
    assert!(plan.show_spinner);
    assert!(!plan.show_start_icon);
    assert!(plan.busy);
    assert!(!plan.click_enabled);
    assert_eq!(plan.cursor, CursorKind::Arrow);
    assert!(!plan.pressed_feedback);
    let idle = button.loading(false).render_plan(true);
    assert!(idle.show_start_icon);
    assert!(idle.click_enabled);
}

#[test]
fn progress_button_draws_a_bar() {
    let plan = Button::new().progress().render_plan(true);
    assert!(plan.show_progress);
    assert!(plan.busy);
    assert!(!plan.click_enabled);
}

#[test]
fn disabled_button_is_not_clickable() {
    let button = Button::new().variant(ButtonVariant::Link).disabled(true);
    let plan = button.render_plan(true);
    assert!(!plan.click_enabled);
    assert!(!plan.focusable);
    assert!(plan.disabled_palette);
    assert!(!plan.underline_on_hover);
    assert_eq!(plan.cursor, CursorKind::NotAllowed);
}

#[test]
fn selected_button_is_toggled() {
    let plan = Button::new().selected(true).size(ButtonSize::Lg).render_plan(false);
    assert_eq!(plan.toggled, Some(Toggled::True));
    assert!(plan.selected_palette);
    assert!(plan.selected_border);
    assert_eq!(plan.size, ButtonSize::Lg);
    assert!(!plan.click_enabled);
}

#[test]
fn button_enter_activates_on_press() {
    let r = key_down(button_keys(), false, true, ActivationKey::Enter, false);
    assert_eq!(
        r,
        EventResponse {
            prevent_default: true,
            stop_propagation: true,
            activate: Some(Some(KeyboardButton::Enter)),
        }
    );
    let repeat = key_down(button_keys(), false, true, ActivationKey::Enter, true);
    assert_eq!(repeat.activate, None);
}

#[test]
fn button_space_activates_on_release() {
    let down = key_down(button_keys(), false, true, ActivationKey::Space, false);
    assert_eq!(down.activate, None);
    assert!(down.prevent_default);
    let up = key_up(button_keys(), false, true, ActivationKey::Space);
    assert_eq!(up.activate, Some(Some(KeyboardButton::Space)));
}

#[test]
fn busy_control_swallows_keys() {
    let down = key_down(button_keys(), true, true, ActivationKey::Enter, false);
    assert_eq!(
        down,
        EventResponse { prevent_default: true, stop_propagation: true, activate: None }
    );
    let up = key_up(button_keys(), true, false, ActivationKey::Space);
    assert_eq!(up.activate, None);
    assert!(up.stop_propagation);
    let other = key_down(button_keys(), true, true, ActivationKey::Other, false);
    assert!(!other.prevent_default);
}

#[test]
fn checkbox_ignores_enter_and_switch_blocks_it() {
    let r = key_down(checkbox_keys(), false, true, ActivationKey::Enter, false);
    assert_eq!(
        r,
        EventResponse { prevent_default: false, stop_propagation: false, activate: None }
    );
    let up = key_up(checkbox_keys(), false, true, ActivationKey::Space);
    assert_eq!(up.activate, Some(Some(KeyboardButton::Space)));
    let s = key_down(switch_keys(), false, true, ActivationKey::Enter, false);
    assert!(s.prevent_default && s.stop_propagation);
    assert_eq!(s.activate, None);
    let s_up = key_up(switch_keys(), false, true, ActivationKey::Space);
    assert_eq!(s_up.activate, None);
}

#[test]
fn no_handler_ignores_keys() {
    let r = key_down(button_keys(), false, false, ActivationKey::Enter, false);
    assert_eq!(r.activate, None);
    assert!(!r.prevent_default);
}

#[test]
fn pointer_and_click_responses() {
    assert_eq!(
        pointer_down(false, true),
        EventResponse { prevent_default: true, stop_propagation: false, activate: None }
    );
    assert!(pointer_down(true, true).stop_propagation);
    assert!(!pointer_down(false, false).prevent_default);
    assert_eq!(click(false, true).activate, Some(None));
    assert_eq!(click(true, true).activate, None);
    assert_eq!(click(false, false).activate, None);
}

#[test]
fn cursor_resolution() {
    assert_eq!(resolved_cursor_style(true, false, Some(CursorKind::IBeam)), CursorKind::NotAllowed);
    assert_eq!(resolved_cursor_style(false, false, Some(CursorKind::IBeam)), CursorKind::IBeam);
    assert_eq!(resolved_cursor_style(false, true, None), CursorKind::Arrow);
    assert_eq!(resolved_cursor_style(false, false, None), CursorKind::PointingHand);
}

#[test]
fn component_size_resolution() {
    assert_eq!(ComponentSize::default(), ComponentSize::Md);
    assert_eq!(ComponentSize::Xs.token_key(), "xs");
    assert_eq!(ComponentSize::Lg.token_key(), "lg");
    let mut settings = ComponentSizeSettings::new();
    assert_eq!(settings.component_size(), ComponentSize::Md);
    assert_eq!(resolved_size(None, &settings), ComponentSize::Md);
    settings.set_component_size(ComponentSize::Sm);
    assert_eq!(settings.component_size(), ComponentSize::Sm);
    assert_eq!(resolved_size(None, &settings), ComponentSize::Sm);
    assert_eq!(resolved_size(Some(ComponentSize::Lg), &settings), ComponentSize::Lg);
}

#[test]
fn accessible_names_prefer_aria_labels() {
    assert_eq!(accessible_name(Some("开关"), Some("Wi-Fi")), Some("开关".to_string()));
    assert_eq!(accessible_name(None, Some("Wi-Fi")), Some("Wi-Fi".to_string()));
    assert_eq!(accessible_name(None, None), None);
}
