use vektra::data_source::{LazyDataSource, OwnedDataSource};
use vektra::scrollbar::{
    fade_step_count, same_axis, scroll_key_command, track_is_visible, FadeAction, FadeTick,
    PhysicalAxis, PointerMoveOutcome, ScrollAxis, ScrollGutter, ScrollKeyCommand,
    ScrollVisibility, ScrollbarConfig, ScrollbarInteraction, FADE_FRAME_INTERVAL_MS,
};
use vektra::tooltip::{Alignment, Side, Tooltip, TooltipPlacement, TooltipTrigger, TransitionPhase};
use vektra::virtual_list::{
    list_scroll_key, list_scrollbar, DeferredScroll, ScrollKey, ScrollStrategy,
    VirtualListMetrics, VirtualListState,
};

#[test]
fn placement_parts() {
    assert_eq!(TooltipPlacement::default(), TooltipPlacement::Bottom);
    assert_eq!(TooltipPlacement::TopStart.side(), Side::Top);
    assert_eq!(TooltipPlacement::TopStart.alignment(), Alignment::Start);
    assert_eq!(TooltipPlacement::LeftEnd.side(), Side::Left);
    assert_eq!(TooltipPlacement::LeftEnd.alignment(), Alignment::End);
    assert_eq!(TooltipPlacement::Right.alignment(), Alignment::Center);
    assert_eq!(TooltipPlacement::TopEnd.with_side(Side::Bottom), TooltipPlacement::BottomEnd);
    assert_eq!(TooltipPlacement::Left.with_side(Side::Right), TooltipPlacement::Right);
}

#[test]
fn opposite_sides() {
    assert_eq!(Side::Top.opposite(), Side::Bottom);
    assert_eq!(Side::Bottom.opposite(), Side::Top);
    assert_eq!(Side::Left.opposite(), Side::Right);
    assert_eq!(Side::Right.opposite(), Side::Left);
    assert_eq!(Side::Left.opposite().opposite(), Side::Left);
}

#[test]
fn hover_schedules_delay_then_shows() {
    let mut t = TooltipTrigger::new();
    assert!(!t.eligible());
    t.set_hovered(true, false);
    assert!(t.eligible());
    assert!(t.delay_pending);
    assert_eq!(t.phase, TransitionPhase::Hidden);
    assert_eq!(t.generation, 1);
    assert!(t.escape_listening);
    t.show_delay_elapsed(0, false);
    assert_eq!(t.phase, TransitionPhase::Hidden);
    t.show_delay_elapsed(1, false);
    assert_eq!(t.phase, TransitionPhase::Entering);
    assert!(t.view);
    assert!(t.phase.is_present());
    let g = t.generation;
    t.enter_elapsed(g);
    assert_eq!(t.phase, TransitionPhase::Visible);
}

#[test]
fn leaving_starts_close_grace_and_exit() {
    let mut t = TooltipTrigger::new();
    t.set_hovered(true, true);
    let g = t.generation;
    t.show_delay_elapsed(g, true);
    assert_eq!(t.phase, TransitionPhase::Visible);
    t.set_hovered(false, true);
    assert!(t.close_pending);
    assert_eq!(t.phase, TransitionPhase::Visible);
    let cg = t.close_generation;
    t.close_grace_elapsed(cg, true);
    assert!(!t.close_pending);
    assert_eq!(t.phase, TransitionPhase::Hidden);
    assert!(!t.view);
}

#[test]
fn escape_dismisses_a_shown_tooltip() {
    let mut t = TooltipTrigger::new();
    t.set_hovered(true, true);
    let g = t.generation;
    t.show_delay_elapsed(g, true);
    assert_eq!(t.phase, TransitionPhase::Visible);
    assert!(t.dismiss(true));
    assert!(t.hover_dismissed);
    assert!(!t.eligible());
    assert_eq!(t.phase, TransitionPhase::Hidden);
    assert!(!t.dismiss(true));
}

#[test]
fn controlled_tooltip_follows_open() {
    let mut t = TooltipTrigger::new();
    t.update_tooltip(Some(true), false, false);
    assert_eq!(t.phase, TransitionPhase::Visible);
    assert!(t.escape_listening);
    t.update_tooltip(Some(false), false, false);
    assert_eq!(t.phase, TransitionPhase::Hidden);
    t.update_tooltip(Some(true), true, false);
    assert_eq!(t.phase, TransitionPhase::Entering);
    t.update_tooltip(Some(false), true, false);
    assert_eq!(t.phase, TransitionPhase::Exiting);
    let g = t.generation;
    t.exit_elapsed(g);
    assert_eq!(t.phase, TransitionPhase::Hidden);
    t.update_placement(TooltipPlacement::LeftStart);
    assert_eq!(t.placement, TooltipPlacement::LeftStart);
}

#[test]
fn keyboard_focus_shows_and_pointer_input_hides() {
    let mut t = TooltipTrigger::new();
    t.focused(true, true);
    assert!(t.keyboard_focused);
    assert!(t.delay_pending);
    let g = t.generation;
    t.show_delay_elapsed(g, true);
    assert_eq!(t.phase, TransitionPhase::Visible);
    t.sync_input_modality(false, true);
    assert!(!t.keyboard_focused);
    assert_eq!(t.phase, TransitionPhase::Hidden);
    let mut u = TooltipTrigger::new();
    u.focused(false, true);
    assert!(!u.delay_pending);
    u.focused(true, true);
    u.blurred(true);
    assert!(!u.keyboard_focused);
    assert!(!u.delay_pending);
}

#[test]
fn bubble_hover_keeps_tooltip() {
    let mut t = TooltipTrigger::new();
    t.set_hovered(true, true);
    let g = t.generation;
    t.show_delay_elapsed(g, true);
    t.set_hovered(false, true);
    t.set_bubble_hovered(true, true);
    assert!(!t.close_pending);
    assert_eq!(t.phase, TransitionPhase::Visible);
}

#[test]
fn scrollbar_config_defaults() {
    let config = ScrollbarConfig::new();
    assert_eq!(config, ScrollbarConfig::default());
    assert_eq!(config.axis, ScrollAxis::Both);
    assert_eq!(config.visibility, ScrollVisibility::Auto);
    assert_eq!(config.gutter, ScrollGutter::Overlay);
    assert_eq!(ScrollAxis::default(), ScrollAxis::Both);
    assert_eq!(ScrollVisibility::default(), ScrollVisibility::Auto);
    assert_eq!(ScrollGutter::default(), ScrollGutter::Overlay);
    let custom = config
        .axis(ScrollAxis::Horizontal)
        .visibility(ScrollVisibility::Always)
        .gutter(ScrollGutter::Stable);
    assert_eq!(custom.axis, ScrollAxis::Horizontal);
    assert_eq!(custom.visibility, ScrollVisibility::Always);
    assert_eq!(custom.gutter, ScrollGutter::Stable);
    assert!(ScrollAxis::Both.has_vertical() && ScrollAxis::Both.has_horizontal());
    assert!(!ScrollAxis::Horizontal.has_vertical());
    assert!(!ScrollAxis::Vertical.has_horizontal());
}

#[test]
fn fade_steps_round_up() {
    assert_eq!(FADE_FRAME_INTERVAL_MS, 15);
    assert_eq!(fade_step_count(0), 1);
    assert_eq!(fade_step_count(1), 1);
    assert_eq!(fade_step_count(15), 1);
    assert_eq!(fade_step_count(16), 2);
    assert_eq!(fade_step_count(150), 10);
    assert_eq!(fade_step_count(u64::MAX), u32::MAX);
}

#[test]
fn axes_compare() {
    assert!(same_axis(None, None));
    assert!(same_axis(Some(PhysicalAxis::Vertical), Some(PhysicalAxis::Vertical)));
    assert!(!same_axis(Some(PhysicalAxis::Vertical), Some(PhysicalAxis::Horizontal)));
    assert!(track_is_visible(PhysicalAxis::Vertical, Some(PhysicalAxis::Vertical), None));
    assert!(track_is_visible(PhysicalAxis::Horizontal, None, Some(PhysicalAxis::Horizontal)));
    assert!(!track_is_visible(PhysicalAxis::Vertical, Some(PhysicalAxis::Horizontal), None));
}

#[test]
fn reveal_schedules_hide_and_fades_in() {
    let mut s = ScrollbarInteraction::new();
    let effects = s.reveal_bars(false);
    assert_eq!(effects.fade, FadeAction::Animate(1));
    assert_eq!(effects.schedule_hide, Some(1));
    assert!(s.target_shown);
    assert!(s.hide_pending);
    assert_eq!(s.fade_tick(1, 3, 10, false), FadeTick::Continue);
    assert_eq!(s.fade_tick(0, 3, 10, false), FadeTick::Stale);
    assert_eq!(s.fade_tick(1, 10, 10, false), FadeTick::Done);
    assert!(!s.fade_pending);
    assert_eq!(s.hide_elapsed(0, false), FadeAction::Unchanged);
    assert_eq!(s.hide_elapsed(1, false), FadeAction::Animate(2));
    assert!(!s.target_shown);
    assert_eq!(s.fade_to(false, false), FadeAction::Unchanged);
}

#[test]
fn hovering_a_track_keeps_bars() {
    let mut s = ScrollbarInteraction::new();
    let (changed, effects) = s.set_hovered(Some(PhysicalAxis::Vertical), None, true);
    assert!(changed);
    assert_eq!(effects.fade, FadeAction::Jump);
    assert_eq!(effects.schedule_hide, None);
    let (again, _) = s.set_hovered(Some(PhysicalAxis::Vertical), None, true);
    assert!(!again);
    let (left, leave) = s.set_hovered(None, None, true);
    assert!(left);
    assert!(leave.schedule_hide.is_some());
}

#[test]
fn dragging_a_thumb() {
    let mut s = ScrollbarInteraction::new();
    assert_eq!(s.pointer_pressed(false, true, false, true), None);
    assert_eq!(s.pointer_pressed(true, false, false, true), None);
    assert_eq!(s.pointer_pressed(true, false, true, true), Some(PhysicalAxis::Horizontal));
    assert_eq!(s.drag_axis, Some(PhysicalAxis::Horizontal));
    assert!(s.target_shown);
    let moved = s.pointer_moved(true, false, false, false, false, true, ScrollVisibility::Auto, true);
    assert_eq!(moved, PointerMoveOutcome::Drag);
    let (ended, effects) = s.pointer_released(true, true);
    assert!(ended);
    assert!(effects.schedule_hide.is_some());
    assert_eq!(s.drag_axis, None);
    let (again, _) = s.pointer_released(true, true);
    assert!(!again);
}

#[test]
fn pointer_in_viewport_reveals_auto_bars() {
    let mut s = ScrollbarInteraction::new();
    let moved =
        s.pointer_moved(false, false, false, false, false, true, ScrollVisibility::Auto, false);
    match moved {
        PointerMoveOutcome::Hover { effects, .. } => {
            assert_eq!(effects.fade, FadeAction::Animate(1));
        }
        PointerMoveOutcome::Drag => panic!("no drag is active"),
    }
    assert!(s.auto_visible && s.target_shown);
    assert!(s.reset_interaction(false));
    assert!(!s.target_shown);
    assert!(!s.reset_interaction(true));
}

#[test]
fn scroll_keys_follow_axis() {
    assert_eq!(
        scroll_key_command("up", true, ScrollAxis::Both),
        Some(ScrollKeyCommand::Step(PhysicalAxis::Vertical, true))
    );
    assert_eq!(scroll_key_command("up", true, ScrollAxis::Horizontal), None);
    assert_eq!(
        scroll_key_command("right", true, ScrollAxis::Horizontal),
        Some(ScrollKeyCommand::Step(PhysicalAxis::Horizontal, false))
    );
    assert_eq!(
        scroll_key_command("pagedown", true, ScrollAxis::Horizontal),
        Some(ScrollKeyCommand::Page(PhysicalAxis::Horizontal, false))
    );
    assert_eq!(
        scroll_key_command("home", true, ScrollAxis::Vertical),
        Some(ScrollKeyCommand::Home(PhysicalAxis::Vertical))
    );
    assert_eq!(
        scroll_key_command("end", true, ScrollAxis::Both),
        Some(ScrollKeyCommand::End(PhysicalAxis::Vertical))
    );
    assert_eq!(scroll_key_command("end", false, ScrollAxis::Both), None);
    assert_eq!(scroll_key_command("a", true, ScrollAxis::Both), None);
}

#[test]
fn virtual_list_clamps_scroll_targets() {
    let mut list = VirtualListState::new();
    assert_eq!(list.clamped_index(3), None);
    list.scroll_to_index(3);
    assert_eq!(list.take_deferred_scroll(), None);
    list.reset(10, 1);
    assert_eq!(list.clamped_index(3), Some(3));
    assert_eq!(list.clamped_index(30), Some(9));
    list.scroll_to_index(30);
    assert_eq!(
        list.take_deferred_scroll(),
        Some(DeferredScroll { item_index: 9, strategy: ScrollStrategy::Top, strict: true })
    );
    assert_eq!(list.take_deferred_scroll(), None);
    list.reveal_index(4);
    assert_eq!(
        list.take_deferred_scroll(),
        Some(DeferredScroll { item_index: 4, strategy: ScrollStrategy::Nearest, strict: false })
    );
    list.scroll_to_middle();
    assert_eq!(list.take_deferred_scroll().unwrap().item_index, 5);
    list.scroll_to_end();
    assert_eq!(
        list.take_deferred_scroll(),
        Some(DeferredScroll { item_index: 9, strategy: ScrollStrategy::Bottom, strict: true })
    );
    list.scroll_to_start();
    assert_eq!(list.take_deferred_scroll().unwrap().item_index, 0);
}

#[test]
fn virtual_list_metrics_accumulate() {
    let mut list = VirtualListState::new();
    let empty = VirtualListMetrics::default();
    assert_eq!(empty.materialized_rows, 0);
    list.reset(100, 0);
    list.record_render(10..20);
    list.record_render(15..20);
    let m = list.metrics();
    assert_eq!(m.visible_range, 15..20);
    assert_eq!(m.materialized_rows, 5);
    assert_eq!(m.renderer_calls, 15);
    assert_eq!(m.max_materialized_rows, 10);
    assert_eq!(list.visible_range(), 15..20);
    list.reconcile(100, 0);
    assert_eq!(list.metrics().materialized_rows, 5);
    list.reconcile(50, 0);
    assert_eq!(list.item_count, 50);
    assert_eq!(list.metrics().materialized_rows, 0);
    assert_eq!(list.metrics().renderer_calls, 15);
    list.record_render(5..3);
    assert_eq!(list.metrics().materialized_rows, 0);
    list.reset(0, 2);
    assert_eq!(list.metrics().renderer_calls, 0);
}

#[test]
fn virtual_list_scrollbar_is_vertical() {
    let config = list_scrollbar(ScrollbarConfig::new().visibility(ScrollVisibility::Always));
    assert_eq!(config.axis, ScrollAxis::Vertical);
    assert_eq!(config.visibility, ScrollVisibility::Always);
}

#[test]
fn owned_data_source_reads_items() {
    let source = OwnedDataSource::from_vec(vec!["a", "b", "c"], |i: usize, v: &&str| {
        format!("{}-{}", i, v)
    });
    assert_eq!(source.item_count(), 3);
    assert_eq!(source.revision(), 0);
    assert_eq!(source.key(1), "1-b");
    assert_eq!(source.item(2), Some("c"));
    assert_eq!(source.item(3), None);
    assert!(source.is_loaded(0));
    assert!(!source.is_loaded(5));
    let revised = source.with_revision(7);
    assert_eq!(revised.revision(), 7);
    assert_eq!(revised.items(), &["a", "b", "c"]);
}

#[test]
fn owned_data_source_from_array() {
    let source = OwnedDataSource::from_array([10u32, 20, 30], |_i: usize, v: &u32| *v);
    assert_eq!(source.item_count(), 3);
    assert_eq!(source.key(2), 30);
    assert_eq!(source.item(0), Some(10));
}

#[test]
fn tooltip_keeps_its_text() {
    let tooltip = Tooltip::new("设置");
    assert_eq!(tooltip.text_value(), "设置");
    assert_eq!(tooltip.open, None);
    assert!(tooltip.arrow && tooltip.animated);
    let held = tooltip.open(true).arrow(false).animated(false);
    assert_eq!(held.open, Some(true));
    assert!(!held.arrow && !held.animated);
    assert_eq!(held.text_value(), "设置");
}

#[test]
fn escape_holds_a_controlled_tooltip_until_reopened() {
    let mut t = TooltipTrigger::new();
    t.update_tooltip(Some(true), false, false);
    assert_eq!(t.phase, TransitionPhase::Visible);
    assert!(t.dismiss(false));
    assert_eq!(t.phase, TransitionPhase::Hidden);
    t.update_tooltip(Some(true), false, false);
    assert_eq!(t.phase, TransitionPhase::Hidden);
    t.update_tooltip(Some(false), false, false);
    t.update_tooltip(Some(true), false, false);
    assert_eq!(t.phase, TransitionPhase::Visible);
}

#[test]
fn virtual_list_scroll_keys() {
    assert_eq!(list_scroll_key("up", true), Some(ScrollKey::StepUp));
    assert_eq!(list_scroll_key("down", true), Some(ScrollKey::StepDown));
    assert_eq!(list_scroll_key("pageup", true), Some(ScrollKey::PageUp));
    assert_eq!(list_scroll_key("pagedown", true), Some(ScrollKey::PageDown));
    assert_eq!(list_scroll_key("home", true), Some(ScrollKey::Home));
    assert_eq!(list_scroll_key("end", true), Some(ScrollKey::End));
    assert_eq!(list_scroll_key("left", true), None);
    assert_eq!(list_scroll_key("down", false), None);
}
