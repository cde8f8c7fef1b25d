use vektra::data_source::LazyDataSource;
use vektra::icon::IconSource;
use vektra::input::keys::Modifiers;
use vektra::select::source::{starts_with, OwnedSelectDataSource};
use vektra::select::state::{reconciled_active_index, ActiveMovement, SelectInteraction};
use vektra::select::trigger::{
    any_control, char_is_control, selected_row, trigger_accessibility, trigger_click,
    trigger_key_action, trigger_name, typeahead_text, TriggerKeyAction,
};
use vektra::control::CursorKind;
use vektra::select::view::{
    chevron_icon, option_click, option_render_plan, requested_value, status_line, trigger_tone,
    OptionTone, StatusRole, StatusTone, TriggerTone, CHECK_ICON, CHEVRON_DOWN_ICON,
    CHEVRON_UP_ICON,
};
use vektra::select::types::{
    SelectChild, SelectEntry, SelectGroup, SelectGroupHeader, SelectOption, SelectStatus,
};
use vektra::traits::Disableable;

fn plain() -> Modifiers {
    Modifiers { control: false, alt: false, shift: false, platform: false, function: false }
}

fn fruits() -> OwnedSelectDataSource {
    OwnedSelectDataSource::from_options(vec![
        SelectOption::new(1, 10, "Apple"),
        SelectOption::new(2, 20, "Banana").disabled(true),
        SelectOption::new(3, 30, "Cherry"),
        SelectOption::new(4, 40, "apricot"),
    ])
}

#[test]
fn status_builders() {
    assert!(SelectStatus::Ready.is_ready());
    let loading = SelectStatus::loading("加载中");
    assert!(!loading.is_ready());
    assert!(matches!(loading, SelectStatus::Loading(ref m) if m == "加载中"));
    assert!(matches!(SelectStatus::empty("无"), SelectStatus::Empty(ref m) if m == "无"));
    assert!(matches!(SelectStatus::error("错"), SelectStatus::Error(ref m) if m == "错"));
}

#[test]
fn option_builders_and_names() {
    let option = SelectOption::new(7, 70, "Seven")
        .icon(IconSource::asset("icons/seven.svg"))
        .description("the seventh");
    assert_eq!(option.id(), 7);
    assert_eq!(option.accessible_label(), "Seven");
    assert_eq!(option.accessible_description(), Some("the seventh".to_string()));
    let named = option.aria_label("Number seven").aria_description("7");
    assert_eq!(named.accessible_label(), "Number seven");
    assert_eq!(named.accessible_description(), Some("7".to_string()));
    assert!(!named.disabled);
    assert!(named.disabled(true).disabled);
    let header = SelectGroupHeader::new(9, "Fruit").aria_label("Fruits");
    assert_eq!(header.id(), 9);
    assert_eq!(header.accessible_label(), "Fruits");
    assert_eq!(SelectGroupHeader::new(9, "Fruit").accessible_label(), "Fruit");
    let group = SelectGroup::new(5, "Group").option(SelectOption::new(1, 1, "a"));
    assert_eq!(group.id(), 5);
    assert_eq!(group.options.len(), 1);
}

#[test]
fn enabled_rows_skip_disabled_options() {
    let source = fruits();
    assert_eq!(source.item_count(), 4);
    assert_eq!(source.first_enabled(), Some(0));
    assert_eq!(source.last_enabled(), Some(3));
    assert!(source.is_enabled(0));
    assert!(!source.is_enabled(1));
    assert!(!source.is_enabled(9));
    assert_eq!(source.next_enabled(0, true, false), Some(2));
    assert_eq!(source.next_enabled(3, true, false), None);
    assert_eq!(source.next_enabled(3, true, true), Some(0));
    assert_eq!(source.next_enabled(2, false, false), Some(0));
    assert_eq!(source.next_enabled(0, false, true), Some(3));
    assert_eq!(source.next_enabled(0, false, false), None);
    assert_eq!(source.key(2), 3);
    assert_eq!(source.index_of_key(4), Some(3));
    assert_eq!(source.index_of_key(8), None);
    assert_eq!(source.index_of_value(30), Some(2));
    assert_eq!(source.index_of_value(31), None);
    assert!(matches!(source.item(1), Some(SelectEntry::Option(ref o)) if o.label == "Banana"));
    assert!(source.item(4).is_none());
    assert!(source.is_loaded(3));
    assert_eq!(source.with_revision(5).revision(), 5);
}

#[test]
fn new_rows_make_a_new_revision() {
    let first = fruits();
    let same = fruits();
    assert_eq!(first.revision(), same.revision());
    let other = OwnedSelectDataSource::from_options(vec![
        SelectOption::new(4, 40, "apricot"),
        SelectOption::new(3, 30, "Cherry"),
        SelectOption::new(2, 20, "Banana"),
        SelectOption::new(1, 10, "Apple"),
    ]);
    assert_ne!(first.revision(), other.revision());
}

#[test]
fn changed_value_or_disabled_flag_makes_a_new_revision() {
    let base = OwnedSelectDataSource::from_options(vec![
        SelectOption::new(1, 10, "Apple"),
        SelectOption::new(2, 20, "Banana"),
    ]);
    let new_value = OwnedSelectDataSource::from_options(vec![
        SelectOption::new(1, 10, "Apple"),
        SelectOption::new(2, 21, "Banana"),
    ]);
    let now_disabled = OwnedSelectDataSource::from_options(vec![
        SelectOption::new(1, 10, "Apple"),
        SelectOption::new(2, 20, "Banana").disabled(true),
    ]);
    assert_ne!(base.revision(), new_value.revision());
    assert_ne!(base.revision(), now_disabled.revision());
    assert_ne!(new_value.revision(), now_disabled.revision());
}

#[test]
fn reordered_rows_follow_the_active_id() {
    let source = fruits();
    let mut state = SelectInteraction::new();
    state.reconcile(&source, true, true, None);
    state.open_with(&source, Some(2), false, false);
    assert_eq!(state.core.active_key, Some(3));
    let reordered = OwnedSelectDataSource::from_options(vec![
        SelectOption::new(3, 30, "Cherry"),
        SelectOption::new(1, 10, "Apple"),
        SelectOption::new(2, 20, "Banana"),
        SelectOption::new(4, 40, "apricot"),
    ]);
    assert!(state.reconcile(&reordered, true, true, None));
    assert_eq!(state.core.active_index, Some(0));
    assert_eq!(state.core.active_key, Some(3));
}

#[test]
fn repeated_ids_and_values_are_not_canonical() {
    let source = OwnedSelectDataSource::from_options(vec![
        SelectOption::new(1, 10, "first"),
        SelectOption::new(1, 11, "same id"),
        SelectOption::new(2, 10, "same value"),
        SelectOption::new(3, 12, "other"),
    ]);
    assert!(source.is_enabled(0));
    assert!(!source.is_enabled(1));
    assert!(!source.is_enabled(2));
    assert!(source.is_enabled(3));
    match source.entry(1) {
        Some(SelectEntry::Option(o)) => {
            assert!(!o.canonical);
            assert!(o.disabled);
        }
        _ => panic!("an option row expected"),
    }
    assert_eq!(source.index_of_value(10), Some(0));
    assert!(source.entry(4).is_none());
}

#[test]
fn groups_give_title_rows() {
    let source = OwnedSelectDataSource::from_children(vec![
        SelectChild::Option(SelectOption::new(1, 1, "Top")),
        SelectChild::Group(
            SelectGroup::new(100, "Fruit")
                .option(SelectOption::new(2, 2, "Apple"))
                .option(SelectOption::new(3, 3, "Pear")),
        ),
    ]);
    assert_eq!(source.item_count(), 4);
    assert_eq!(source.option_count(), 3);
    assert!(matches!(source.entry(1), Some(SelectEntry::Group(_))));
    assert_eq!(source.key(1), 100);
    assert!(!source.is_enabled(1));
    assert_eq!(source.option_position(0), Some(0));
    assert_eq!(source.option_position(1), None);
    assert_eq!(source.option_position(2), Some(1));
    assert_eq!(source.option_position(3), Some(2));
    assert_eq!(source.next_enabled(0, true, false), Some(2));
}

#[test]
fn array_and_entries_constructors() {
    let source = OwnedSelectDataSource::from_array([
        SelectOption::new(1, 1, "one"),
        SelectOption::new(2, 2, "two"),
    ]);
    assert_eq!(source.item_count(), 2);
    let entries = OwnedSelectDataSource::from_entries(vec![
        SelectEntry::Group(SelectGroupHeader::new(5, "G")),
        SelectEntry::Option(SelectOption::new(6, 6, "six")),
    ]);
    assert_eq!(entries.first_enabled(), Some(1));
    assert_eq!(entries.entry(0).unwrap().id(), 5);
}

#[test]
fn prefix_search_wraps_after_active() {
    let source = fruits();
    assert_eq!(source.search_prefix("ap", None), Some(0));
    assert_eq!(source.search_prefix("ap", Some(0)), Some(3));
    assert_eq!(source.search_prefix("ap", Some(3)), Some(0));
    assert_eq!(source.search_prefix("ba", None), None);
    assert_eq!(source.search_prefix("c", Some(0)), Some(2));
    assert_eq!(source.search_prefix("", None), None);
    assert!(starts_with("apple", "ap"));
    assert!(!starts_with("ap", "apple"));
    assert!(starts_with("x", ""));
}

#[test]
fn reconcile_keeps_active_on_enabled_rows() {
    let source = fruits();
    let mut state = SelectInteraction::new();
    state.open_with(&source, None, false, true);
    assert!(state.core.open);
    assert_eq!(state.core.active_index, None);
    let changed = state.reconcile(&source, true, true, None);
    assert!(changed);
    assert_eq!(state.core.active_index, Some(0));
    assert_eq!(state.core.active_key, Some(1));
    assert_eq!(state.list.item_count, 4);
    let off = state.reconcile(&source, true, false, None);
    assert!(off);
    assert!(!state.core.open);
    assert_eq!(state.core.active_index, None);
    assert_eq!(reconciled_active_index(&source, Some(1)), Some(2));
    assert_eq!(reconciled_active_index(&source, None), None);
}

#[test]
fn open_prefers_the_selected_row() {
    let source = fruits();
    let mut state = SelectInteraction::new();
    state.reconcile(&source, true, true, None);
    state.open_with(&source, Some(2), false, true);
    assert_eq!(state.core.active_index, Some(2));
    assert_eq!(state.core.active_key, Some(3));
    assert_eq!(state.list.take_deferred_scroll().unwrap().item_index, 2);
    assert!(state.close());
    assert!(!state.close());
    state.open_with(&source, Some(1), true, false);
    assert_eq!(state.core.active_index, Some(2));
    let mut fresh = SelectInteraction::new();
    fresh.reconcile(&source, true, true, None);
    fresh.open_with(&source, Some(1), true, false);
    assert_eq!(fresh.core.active_index, Some(3));
}

#[test]
fn moving_the_active_row() {
    let source = fruits();
    let mut state = SelectInteraction::new();
    state.reconcile(&source, true, true, None);
    state.open_with(&source, None, false, false);
    assert_eq!(state.core.active_index, Some(0));
    assert!(state.move_active(&source, ActiveMovement::Next));
    assert_eq!(state.core.active_index, Some(2));
    assert!(state.move_active(&source, ActiveMovement::Last));
    assert_eq!(state.core.active_index, Some(3));
    assert!(state.move_active(&source, ActiveMovement::Next));
    assert_eq!(state.core.active_index, Some(3));
    assert!(state.move_active(&source, ActiveMovement::First));
    assert_eq!(state.core.active_index, Some(0));
    assert!(state.move_active(&source, ActiveMovement::Previous));
    assert_eq!(state.core.active_index, Some(0));
    assert!(state.set_hovered(&source, 2));
    assert!(!state.set_hovered(&source, 1));
    assert_eq!(state.core.active_index, Some(2));
    assert_eq!(state.submittable_active_index(&source), Some(2));
    assert!(state.can_submit(&source, 0));
    assert!(!state.can_submit(&source, 1));
}

#[test]
fn typeahead_finds_and_times_out() {
    let source = fruits();
    let mut state = SelectInteraction::new();
    state.reconcile(&source, true, true, None);
    assert!(state.typeahead(&source, "C"));
    assert_eq!(state.core.active_index, Some(2));
    assert!(state.core.open);
    assert!(state.core.typeahead_pending);
    let g = state.core.typeahead_generation;
    state.typeahead_elapsed(g);
    assert!(!state.core.typeahead_pending);
    assert_eq!(state.typeahead_buffer, "");
    assert!(state.typeahead(&source, "a"));
    assert_eq!(state.core.active_index, Some(3));
    assert!(state.typeahead(&source, "a"));
    assert_eq!(state.core.active_index, Some(0));
    assert_eq!(state.typeahead_buffer, "aa");
    assert!(!state.typeahead(&source, "z"));
    assert!(!state.typeahead(&source, ""));
}

#[test]
fn trigger_keys() {
    assert!(matches!(trigger_key_action("tab", None, plain(), true), TriggerKeyAction::CloseForTab));
    assert!(matches!(trigger_key_action("down", None, plain(), false), TriggerKeyAction::Open(false)));
    assert!(matches!(trigger_key_action("up", None, plain(), false), TriggerKeyAction::Open(true)));
    assert!(matches!(trigger_key_action("escape", None, plain(), true), TriggerKeyAction::Close));
    assert!(matches!(
        trigger_key_action("pagedown", None, plain(), true),
        TriggerKeyAction::Move(ActiveMovement::PageNext)
    ));
    assert!(matches!(
        trigger_key_action("home", None, plain(), true),
        TriggerKeyAction::Move(ActiveMovement::First)
    ));
    assert!(matches!(
        trigger_key_action("a", Some("a"), plain(), false),
        TriggerKeyAction::Typeahead(ref t) if t == "a"
    ));
    let ctrl = Modifiers { control: true, ..plain() };
    assert!(matches!(trigger_key_action("a", Some("a"), ctrl, true), TriggerKeyAction::Ignore));
    assert!(matches!(trigger_key_action("escape", None, plain(), false), TriggerKeyAction::Ignore));
}

#[test]
fn typed_text_of_keys() {
    assert_eq!(typeahead_text("space", None, plain()), Some(" ".to_string()));
    assert_eq!(typeahead_text("b", None, plain()), Some("b".to_string()));
    assert_eq!(typeahead_text("x", Some("X"), plain()), Some("X".to_string()));
    assert_eq!(typeahead_text("enter", Some("\n"), plain()), None);
    assert_eq!(typeahead_text("down", None, plain()), None);
    let alt = Modifiers { alt: true, ..plain() };
    assert_eq!(typeahead_text("b", Some("b"), alt), None);
    assert!(char_is_control('\u{7f}'));
    assert!(!char_is_control('a'));
    assert!(any_control("a\tb"));
    assert!(!any_control("ab"));
}

#[test]
fn trigger_clicks_open_and_submit() {
    let source = fruits();
    let mut state = SelectInteraction::new();
    state.reconcile(&source, true, true, None);
    assert_eq!(trigger_click(&mut state, &source, false, Some(2)), None);
    assert!(state.core.open);
    assert_eq!(trigger_click(&mut state, &source, false, None), None);
    assert!(!state.core.open);
    assert_eq!(trigger_click(&mut state, &source, true, Some(3)), None);
    assert_eq!(state.core.active_index, Some(3));
    assert_eq!(trigger_click(&mut state, &source, true, None), Some(3));
    assert!(!state.core.open);
}

#[test]
fn trigger_labels() {
    assert_eq!(
        trigger_accessibility(Some("Apple"), "请选择"),
        (Some("Apple".to_string()), None)
    );
    assert_eq!(trigger_accessibility(None, "请选择"), (None, Some("请选择".to_string())));
    assert_eq!(trigger_name(Some("水果"), Some("Apple"), "请选择"), "水果");
    assert_eq!(trigger_name(None, Some("Apple"), "请选择"), "Apple");
    assert_eq!(trigger_name(None, None, "请选择"), "请选择");
    let source = fruits();
    assert_eq!(selected_row(&source, Some(30)), (Some(2), true));
    assert_eq!(selected_row(&source, Some(20)), (Some(1), false));
    assert_eq!(selected_row(&source, Some(99)), (None, false));
    assert_eq!(selected_row(&source, None), (None, false));
}

#[test]
fn trigger_tones_and_chevrons() {
    assert_eq!(trigger_tone(true, true), TriggerTone::Disabled);
    assert_eq!(trigger_tone(false, true), TriggerTone::Open);
    assert_eq!(trigger_tone(false, false), TriggerTone::Normal);
    assert_eq!(chevron_icon(true), CHEVRON_UP_ICON);
    assert_eq!(chevron_icon(false), CHEVRON_DOWN_ICON);
    assert_eq!(CHEVRON_DOWN_ICON, "components/select/chevron-down.svg");
    assert_eq!(CHECK_ICON, "components/checkbox/check.svg");
}

#[test]
fn option_rows_render_plans() {
    let source = OwnedSelectDataSource::from_children(vec![
        SelectChild::Group(
            SelectGroup::new(100, "Fruit")
                .option(SelectOption::new(1, 10, "Apple"))
                .option(SelectOption::new(2, 20, "Banana").disabled(true)),
        ),
        SelectChild::Option(SelectOption::new(3, 30, "Cherry")),
    ]);
    assert!(option_render_plan(&source, 0, None, None).is_none());
    assert!(option_render_plan(&source, 9, None, None).is_none());
    let apple = option_render_plan(&source, 1, Some(10), Some(3)).unwrap();
    assert_eq!(apple.tone, OptionTone::Selected);
    assert!(apple.selected && !apple.active);
    assert_eq!(apple.position_in_set, 1);
    assert_eq!(apple.size_of_set, 3);
    assert_eq!(apple.cursor, CursorKind::PointingHand);
    let banana = option_render_plan(&source, 2, Some(20), Some(2)).unwrap();
    assert_eq!(banana.tone, OptionTone::Disabled);
    assert!(!banana.active);
    assert_eq!(banana.cursor, CursorKind::NotAllowed);
    assert!(!banana.hover_feedback);
    let cherry = option_render_plan(&source, 3, Some(30), Some(3)).unwrap();
    assert_eq!(cherry.tone, OptionTone::Active);
    assert!(cherry.selected && cherry.active);
    assert_eq!(cherry.position_in_set, 3);
}

#[test]
fn choosing_options_requests_new_values() {
    let source = fruits();
    assert_eq!(requested_value(&source, Some(2), Some(10)), Some(30));
    assert_eq!(requested_value(&source, Some(2), Some(30)), None);
    assert_eq!(requested_value(&source, None, None), None);
    let mut state = SelectInteraction::new();
    state.reconcile(&source, true, true, None);
    state.open_with(&source, None, false, false);
    assert_eq!(option_click(&mut state, &source, 1, Some(10)), None);
    assert!(state.core.open);
    assert_eq!(option_click(&mut state, &source, 3, Some(10)), Some(40));
    assert!(!state.core.open);
    state.open_with(&source, None, false, false);
    assert_eq!(option_click(&mut state, &source, 0, Some(10)), None);
    assert!(!state.core.open);
}

#[test]
fn popup_status_lines() {
    assert!(status_line(&SelectStatus::Ready).is_none());
    let loading = status_line(&SelectStatus::loading("Loading")).expect("a loading line");
    assert_eq!(loading.tone, StatusTone::Loading);
    assert_eq!(loading.role, StatusRole::Status);
    assert_eq!(loading.marker, "…");
    assert_eq!(loading.message, "Loading");
    let empty = status_line(&SelectStatus::empty("Nothing")).expect("an empty line");
    assert_eq!(empty.tone, StatusTone::Empty);
    assert_eq!(empty.role, StatusRole::Status);
    assert_eq!(empty.marker, "—");
    let error = status_line(&SelectStatus::error("Failed")).expect("an error line");
    assert_eq!(error.tone, StatusTone::Error);
    assert_eq!(error.role, StatusRole::Alert);
    assert_eq!(error.marker, "!");
    assert_eq!(error.message, "Failed");
}
