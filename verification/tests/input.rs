use vektra::input::a11y::{
    a11y_announced_value, a11y_character_count, a11y_character_units, a11y_selection_ends,
    a11y_text_position, a11y_unit_index_for_byte, build_a11y_text_runs, checked_a11y_length,
    MAX_CHARS_PER_TEXT_RUN, MAX_UNIT_BYTES,
};
use vektra::input::caret::{caret_is_visible, caret_should_blink, CaretBlink, CaretBlinkAction};
use vektra::input::clear::{clear_button, clear_button_visible, InputClear, CLEAR_ICON};
use vektra::input::display::{marked_text_runs, DisplayText, PASSWORD_MASK};
use vektra::input::editor::{Deletion, HorizontalMovement, InputState, MAX_HISTORY_ENTRIES};
use vektra::input::keys::{edit_key, key_command, EditKey, KeyCommand, Modifiers, Platform};
use vektra::control::CursorKind;
use vektra::icon_button::IconButtonVariant;
use vektra::size::ComponentSize;
use vektra::tooltip::{Tooltip, TooltipPlacement};
use vektra::input::style::{
    configure_outcome, editor_cursor, editor_state_key, input_render_plan, InputFocusTone, InputTone, INVALID_ICON, InputEvent, InputRole, InputSettings, InputType, InputVariant,
};

fn plain() -> Modifiers {
    Modifiers { control: false, alt: false, shift: false, platform: false, function: false }
}

#[test]
fn new_editor_normalizes_lines_and_puts_caret_at_end() {
    let editor = InputState::new("a\r\nb\nc\rd");
    assert_eq!(editor.value(), "a b c d");
    assert_eq!(editor.selection(), 7..7);
    assert!(!editor.selection_reversed());
    assert_eq!(editor.marked_range(), None);
    assert!(editor.can_edit());
}

#[test]
fn typing_and_undo_redo() {
    let mut editor = InputState::new("");
    assert!(editor.paste("hello"));
    assert_eq!(editor.value(), "hello");
    assert_eq!(editor.cursor_offset(), 5);
    assert!(editor.replace_user_range(5..5, " world"));
    assert_eq!(editor.value(), "hello world");
    assert_eq!(editor.undo(), Some(true));
    assert_eq!(editor.value(), "hello");
    assert_eq!(editor.undo(), Some(true));
    assert_eq!(editor.value(), "");
    assert_eq!(editor.undo(), None);
    assert_eq!(editor.redo(), Some(true));
    assert_eq!(editor.value(), "hello");
    assert_eq!(editor.redo(), Some(true));
    assert_eq!(editor.value(), "hello world");
    assert_eq!(editor.redo(), None);
    assert_eq!(MAX_HISTORY_ENTRIES, 100);
}

#[test]
fn pasted_newlines_become_spaces() {
    let mut editor = InputState::new("ab");
    editor.move_to(1);
    assert!(editor.paste("x\ny"));
    assert_eq!(editor.value(), "ax yb");
    assert_eq!(editor.cursor_offset(), 4);
}

#[test]
fn selection_and_cut_copy() {
    let mut editor = InputState::new("hello world");
    editor.move_to(6);
    editor.select_to(11);
    assert_eq!(editor.selection(), 6..11);
    assert_eq!(editor.copy_text(), Some("world".to_string()));
    editor.select_to(2);
    assert_eq!(editor.selection(), 2..6);
    assert!(editor.selection_reversed());
    assert_eq!(editor.cursor_offset(), 2);
    assert_eq!(editor.anchor_offset(), 6);
    let (text, changed) = editor.cut();
    assert_eq!(text, Some("llo ".to_string()));
    assert!(changed);
    assert_eq!(editor.value(), "heworld");
    assert_eq!(editor.copy_text(), None);
}

#[test]
fn deletion_by_grapheme_and_word() {
    let mut editor = InputState::new("hello world");
    assert!(editor.delete_backward(Deletion::Word));
    assert_eq!(editor.value(), "hello ");
    assert!(editor.delete_backward(Deletion::Grapheme));
    assert_eq!(editor.value(), "hello");
    editor.move_to(0);
    assert!(editor.delete_forward(Deletion::Grapheme));
    assert_eq!(editor.value(), "ello");
    assert!(editor.delete_forward(Deletion::Line));
    assert_eq!(editor.value(), "");
    assert!(!editor.delete_backward(Deletion::Grapheme));
}

#[test]
fn combining_marks_move_as_one_grapheme() {
    let mut editor = InputState::new("ae\u{301}b");
    assert_eq!(editor.cursor_offset(), 5);
    assert!(editor.move_horizontal(false, HorizontalMovement::Grapheme, false));
    assert_eq!(editor.cursor_offset(), 4);
    assert!(editor.move_horizontal(false, HorizontalMovement::Grapheme, false));
    assert_eq!(editor.cursor_offset(), 1);
    editor.move_to(2);
    assert_eq!(editor.cursor_offset(), 1);
    assert!(editor.move_horizontal(true, HorizontalMovement::Line, true));
    assert_eq!(editor.selection(), 1..5);
    assert!(editor.delete_backward(Deletion::Grapheme));
    assert_eq!(editor.value(), "a");
}

#[test]
fn word_selection_and_select_all() {
    let mut editor = InputState::new("hello world");
    editor.select_word_at(8);
    assert_eq!(editor.selection(), 6..11);
    assert!(editor.mouse_down(3, false, 0));
    assert_eq!(editor.selection(), 0..11);
    assert!(editor.mouse_down(1, false, 3));
    assert_eq!(editor.selection(), 3..3);
    assert!(editor.mouse_down(1, true, 8));
    assert_eq!(editor.selection(), 3..8);
    assert!(editor.select_all());
    assert_eq!(editor.selection(), 0..11);
}

#[test]
fn pointer_drag_extends_selection_until_release_or_reset() {
    let mut editor = InputState::new("hello world");
    assert!(!editor.is_selecting());
    editor.mouse_move(4);
    assert_eq!(editor.selection(), 11..11);
    assert!(editor.mouse_down(1, false, 2));
    assert!(editor.is_selecting());
    editor.mouse_move(7);
    assert_eq!(editor.selection(), 2..7);
    editor.mouse_move(0);
    assert_eq!(editor.selection(), 0..2);
    assert!(editor.selection_reversed());
    editor.mouse_up();
    assert!(!editor.is_selecting());
    editor.mouse_move(9);
    assert_eq!(editor.selection(), 0..2);
    assert!(editor.mouse_down(1, false, 1));
    editor.reset("reset");
    assert!(!editor.is_selecting());
    editor.mouse_move(1);
    assert_eq!(editor.selection(), 5..5);
    assert!(editor.mouse_down(1, false, 1));
    editor.configure(true, false, false);
    editor.mouse_move(4);
    assert_eq!(editor.selection(), 1..1);
}

#[test]
fn disabled_and_read_only_editor() {
    let mut editor = InputState::new("abc");
    editor.configure(false, true, false);
    assert!(!editor.can_edit());
    assert!(!editor.paste("x"));
    assert_eq!(editor.value(), "abc");
    assert!(!editor.user_clear());
    editor.configure(true, false, false);
    assert!(editor.is_disabled());
    assert!(!editor.mouse_down(1, false, 0));
    assert_eq!(editor.selected_text_range(false), None);
    assert!(editor.selected_text_range(true).is_some());
    editor.configure(false, false, true);
    assert!(editor.is_password_hidden());
    editor.select_all();
    assert_eq!(editor.copy_text(), None);
    assert!(editor.user_clear());
    assert_eq!(editor.value(), "");
}

#[test]
fn set_value_and_reset() {
    let mut editor = InputState::new("one");
    assert!(editor.set_value("two"));
    assert_eq!(editor.value(), "two");
    assert!(!editor.set_value("two"));
    assert_eq!(editor.undo(), Some(true));
    assert_eq!(editor.value(), "one");
    assert!(editor.clear());
    assert_eq!(editor.value(), "");
    editor.reset("fresh");
    assert_eq!(editor.value(), "fresh");
    assert_eq!(editor.undo(), None);
}

#[test]
fn set_value_with_same_text_moves_caret_to_end() {
    let mut editor = InputState::new("two");
    editor.select_all();
    assert_eq!(editor.selection(), 0..3);
    assert!(!editor.set_value("two"));
    assert_eq!(editor.value(), "two");
    assert_eq!(editor.selection(), 3..3);
    assert!(!editor.selection_reversed());
    assert_eq!(editor.undo(), None);
}

#[test]
fn utf16_ranges_for_ime() {
    let mut editor = InputState::new("a\u{1F600}b");
    assert_eq!(editor.text_length_utf16(), 4);
    assert_eq!(editor.utf16_offset(5), 3);
    let (text, range) = editor.text_for_range(1..3);
    assert_eq!(text, "\u{1F600}");
    assert_eq!(range, 1..3);
    assert!(editor.set_selected_text_range(3..4));
    assert_eq!(editor.selection(), 5..6);
    assert_eq!(editor.selected_text_range(false), Some((3..4, false)));
}

#[test]
fn composition_marks_then_commits() {
    let mut editor = InputState::new("ab");
    editor.move_to(1);
    assert!(editor.replace_and_mark_text_in_range(None, "ni", None));
    assert_eq!(editor.value(), "anib");
    assert_eq!(editor.marked_range(), Some(1..3));
    assert_eq!(editor.marked_text_range(), Some(1..3));
    assert!(editor.replace_text_in_range(None, "你"));
    assert_eq!(editor.value(), "a你b");
    assert_eq!(editor.marked_range(), None);
    assert_eq!(editor.cursor_offset(), 4);
    assert_eq!(editor.undo(), Some(true));
    assert_eq!(editor.value(), "ab");
}

#[test]
fn unmarking_keeps_composed_text() {
    let mut editor = InputState::new("");
    editor.replace_and_mark_text_in_range(None, "ka", Some(0..1));
    assert_eq!(editor.selection(), 0..1);
    assert!(editor.unmark_text());
    assert_eq!(editor.value(), "ka");
    assert_eq!(editor.marked_range(), None);
    assert!(!editor.unmark_text());
}

#[test]
fn edit_keys_and_commands() {
    assert_eq!(edit_key("a"), EditKey::A);
    assert_eq!(edit_key("backspace"), EditKey::Backspace);
    assert_eq!(edit_key("enter"), EditKey::Enter);
    assert_eq!(edit_key("f5"), EditKey::Other);
    let ctrl = Modifiers { control: true, ..plain() };
    let cmd = Modifiers { platform: true, ..plain() };
    let alt = Modifiers { alt: true, ..plain() };
    let shift = Modifiers { shift: true, ..plain() };
    assert_eq!(
        key_command(EditKey::A, ctrl, Platform::Other, false, true, false, false),
        KeyCommand::SelectAll
    );
    assert_eq!(
        key_command(EditKey::A, ctrl, Platform::MacOs, false, true, false, false),
        KeyCommand::Ignore
    );
    assert_eq!(
        key_command(EditKey::C, cmd, Platform::MacOs, false, true, false, false),
        KeyCommand::Copy
    );
    assert_eq!(
        key_command(EditKey::X, ctrl, Platform::Other, false, true, true, false),
        KeyCommand::Swallow
    );
    assert_eq!(
        key_command(EditKey::V, ctrl, Platform::Other, false, false, false, false),
        KeyCommand::Ignore
    );
    let ctrl_shift = Modifiers { control: true, shift: true, ..plain() };
    assert_eq!(
        key_command(EditKey::Z, ctrl_shift, Platform::Other, false, true, false, false),
        KeyCommand::Redo
    );
    assert_eq!(
        key_command(EditKey::Enter, plain(), Platform::Other, false, true, false, false),
        KeyCommand::Submit
    );
    assert_eq!(
        key_command(EditKey::Enter, plain(), Platform::Other, false, true, false, true),
        KeyCommand::Ignore
    );
    assert_eq!(
        key_command(EditKey::Left, alt, Platform::MacOs, false, true, false, false),
        KeyCommand::MoveHorizontal { right: false, kind: HorizontalMovement::Word, extend: false }
    );
    assert_eq!(
        key_command(EditKey::Right, shift, Platform::Other, false, true, false, false),
        KeyCommand::MoveHorizontal { right: true, kind: HorizontalMovement::Grapheme, extend: true }
    );
    assert_eq!(
        key_command(EditKey::Backspace, cmd, Platform::MacOs, false, true, false, false),
        KeyCommand::DeleteBackward(Deletion::Line)
    );
    assert_eq!(
        key_command(EditKey::Delete, ctrl, Platform::Other, false, true, false, false),
        KeyCommand::DeleteForward(Deletion::Word)
    );
    assert_eq!(
        key_command(EditKey::Home, shift, Platform::Other, false, true, false, false),
        KeyCommand::MoveToStart { extend: true }
    );
    assert_eq!(
        key_command(EditKey::A, ctrl, Platform::Other, true, true, false, false),
        KeyCommand::Ignore
    );
}

#[test]
fn performing_commands() {
    let mut editor = InputState::new("hello");
    let out = editor.perform(KeyCommand::SelectAll);
    assert!(out.handled);
    assert!(!out.changed);
    let copy = editor.perform(KeyCommand::Copy);
    assert_eq!(copy.clipboard, Some("hello".to_string()));
    let cut = editor.perform(KeyCommand::Cut);
    assert!(cut.changed);
    assert_eq!(cut.clipboard, Some("hello".to_string()));
    assert_eq!(editor.value(), "");
    let undo = editor.perform(KeyCommand::Undo);
    assert!(undo.changed);
    assert_eq!(editor.value(), "hello");
    let submit = editor.perform(KeyCommand::Submit);
    assert!(submit.submitted);
    let ignore = editor.perform(KeyCommand::Ignore);
    assert!(!ignore.handled);
    let home = editor.perform(KeyCommand::MoveToStart { extend: false });
    assert!(home.handled);
    assert_eq!(editor.cursor_offset(), 0);
}

#[test]
fn password_display_masks_graphemes() {
    let shown = DisplayText::new("ab", true);
    assert_eq!(shown.text, "\u{2022}\u{2022}");
    assert_eq!(PASSWORD_MASK, '\u{2022}');
    assert_eq!(shown.display_offset(1), 3);
    assert_eq!(shown.display_offset(2), 6);
    assert_eq!(shown.real_offset(3), 1);
    assert_eq!(shown.real_offset(4), 1);
    assert_eq!(shown.display_range(0..2), 0..6);
    let plain_text = DisplayText::new("ab", false);
    assert_eq!(plain_text.text, "ab");
    assert_eq!(plain_text.display_offset(9), 2);
    assert_eq!(plain_text.real_offset(1), 1);
}

#[test]
fn marked_runs_split_the_text() {
    assert_eq!(marked_text_runs(5, None), vec![(5, false)]);
    assert_eq!(marked_text_runs(5, Some(1..3)), vec![(1, false), (2, true), (2, false)]);
    assert_eq!(marked_text_runs(5, Some(0..5)), vec![(5, true)]);
    assert_eq!(marked_text_runs(5, Some(2..2)), vec![(2, false), (3, false)]);
}

#[test]
fn a11y_units_and_positions() {
    assert_eq!(MAX_UNIT_BYTES, 255);
    assert_eq!(MAX_CHARS_PER_TEXT_RUN, 255);
    assert_eq!(a11y_character_units("ae\u{301}b"), vec![(0, 1), (1, 4), (4, 5)]);
    assert_eq!(a11y_character_count("ae\u{301}b"), 3);
    assert_eq!(a11y_character_count(""), 0);
    assert_eq!(a11y_unit_index_for_byte("ae\u{301}b", 4), 2);
    assert_eq!(a11y_unit_index_for_byte("ae\u{301}b", 99), 3);
    assert_eq!(a11y_unit_index_for_byte("ae\u{301}b", 0), 0);
    assert_eq!(checked_a11y_length(255), 255);
    let p = a11y_text_position(255);
    assert_eq!((p.chunk, p.character_index), (0, 255));
    let q = a11y_text_position(256);
    assert_eq!((q.chunk, q.character_index), (1, 1));
    let z = a11y_text_position(0);
    assert_eq!((z.chunk, z.character_index), (0, 0));
}

#[test]
fn long_graphemes_are_split_into_units() {
    let mut text = String::from("a");
    for _ in 0..300 {
        text.push('\u{301}');
    }
    let units = a11y_character_units(&text);
    assert!(units.iter().all(|(s, e)| e - s <= 255));
    assert_eq!(units.first().unwrap().0, 0);
    assert_eq!(units.last().unwrap().1, text.len());
}

#[test]
fn a11y_runs_chunk_text() {
    let (runs, selection) = build_a11y_text_runs("hello world", 0, 5);
    assert_eq!(runs.len(), 1);
    assert_eq!(runs[0].chunk, 0);
    assert_eq!(runs[0].byte_start, 0);
    assert_eq!(runs[0].byte_end, 11);
    assert_eq!(runs[0].character_lengths, vec![1u8; 11]);
    assert_eq!(runs[0].word_starts, vec![0u8, 6]);
    assert_eq!(runs[0].previous, None);
    assert_eq!(runs[0].next, None);
    assert_eq!((selection.anchor.chunk, selection.anchor.character_index), (0, 0));
    assert_eq!((selection.focus.chunk, selection.focus.character_index), (0, 5));
    let long = "x".repeat(600);
    let (runs, selection) = build_a11y_text_runs(&long, 600, 300);
    assert_eq!(runs.len(), 3);
    assert_eq!(runs[1].byte_start, 255);
    assert_eq!(runs[1].byte_end, 510);
    assert_eq!(runs[1].previous, Some(0));
    assert_eq!(runs[1].next, Some(2));
    assert_eq!(runs[2].character_lengths.len(), 90);
    assert_eq!((selection.anchor.chunk, selection.anchor.character_index), (2, 90));
    assert_eq!((selection.focus.chunk, selection.focus.character_index), (1, 45));
    let (empty, _) = build_a11y_text_runs("", 0, 0);
    assert_eq!(empty.len(), 1);
    assert!(empty[0].character_lengths.is_empty());
}

#[test]
fn a11y_selection_and_value() {
    assert_eq!(a11y_selection_ends(1, 4, false), (1, 4));
    assert_eq!(a11y_selection_ends(1, 4, true), (4, 1));
    assert_eq!(
        a11y_announced_value("stored".to_string(), "shown".to_string(), false, true),
        "stored"
    );
    assert_eq!(
        a11y_announced_value("stored".to_string(), "shown".to_string(), true, true),
        "shown"
    );
    assert_eq!(
        a11y_announced_value("stored".to_string(), "shown".to_string(), false, false),
        "shown"
    );
}

#[test]
fn caret_visibility_and_blinking() {
    assert!(caret_is_visible(true, true, false, false));
    assert!(!caret_is_visible(true, false, false, false));
    assert!(!caret_is_visible(true, true, false, true));
    assert!(caret_should_blink(true, false, false));
    assert!(!caret_should_blink(true, true, false));
    assert!(!caret_should_blink(true, false, true));
    let mut blink = CaretBlink::new();
    assert_eq!(blink.sync(true), CaretBlinkAction::Start(0));
    assert_eq!(blink.sync(true), CaretBlinkAction::Idle);
    assert!(blink.tick(0));
    assert!(!blink.phase_visible);
    assert_eq!(blink.restart(true), CaretBlinkAction::Start(1));
    assert!(blink.phase_visible);
    assert!(!blink.tick(0));
    assert!(blink.tick(1));
    assert_eq!(blink.sync(false), CaretBlinkAction::Idle);
    assert!(!blink.running);
    assert_eq!(blink.generation, 2);
    assert!(blink.phase_visible);
}

#[test]
fn input_styles_and_roles() {
    assert_eq!(InputVariant::default(), InputVariant::Outline);
    assert_eq!(InputVariant::Filled.token_key(), "filled");
    assert_eq!(InputVariant::Borderless.token_key(), "borderless");
    assert!(InputVariant::Underline.has_square_corners());
    assert!(!InputVariant::Outline.has_square_corners());
    assert_eq!(InputType::default(), InputType::Text);
    assert_eq!(InputType::Password.role(), InputRole::PasswordInput);
    assert_eq!(InputType::Phone.role(), InputRole::PhoneNumberInput);
    assert_eq!(InputEvent::Changed("a".to_string()), InputEvent::Changed("a".to_string()));
}

#[test]
fn configure_outcomes() {
    let text = InputSettings::new();
    assert!(!text.password_hidden());
    let password = InputSettings { input_type: InputType::Password, ..text };
    assert!(password.password_hidden());
    let revealed = InputSettings { password_revealed: true, ..password };
    assert!(!revealed.password_hidden());
    let out = configure_outcome(text, password);
    assert!(out.relayout);
    assert!(!out.restart_caret);
    assert!(!out.blur_if_focused);
    let disabled = InputSettings { disabled: true, ..text };
    let out = configure_outcome(text, disabled);
    assert!(out.restart_caret);
    assert!(out.blur_if_focused);
    assert!(!out.relayout);
    assert!(!configure_outcome(disabled, text).blur_if_focused);
}

#[test]
fn clear_button_rules() {
    assert!(clear_button_visible(false, false, false));
    assert!(!clear_button_visible(true, false, false));
    assert!(!clear_button_visible(false, true, false));
    assert!(!clear_button_visible(false, false, true));
    assert_eq!(CLEAR_ICON, "components/input/clear.svg");
    let clear = InputClear::new("清除")
        .tooltip(Tooltip::new("清除内容").arrow(false))
        .tooltip_placement(TooltipPlacement::Top);
    assert_eq!(clear.aria_label, "清除");
    let button = clear_button(&clear);
    assert_eq!(button.icon.path(), "components/input/clear.svg");
    assert_eq!(button.aria_label.as_deref(), Some("清除"));
    assert_eq!(button.aria_description, None);
    assert_eq!(button.resolved_variant(), IconButtonVariant::Transparent);
    assert_eq!(button.size, Some(ComponentSize::Xs));
    let tooltip = button.tooltip.expect("the action's tooltip");
    assert_eq!(tooltip.text_value(), "清除内容");
    assert!(!tooltip.arrow);
    assert_eq!(button.tooltip_placement, TooltipPlacement::Top);
    let plain = clear_button(&InputClear::new("x"));
    assert!(plain.tooltip.is_none());
    assert_eq!(plain.tooltip_placement, TooltipPlacement::Bottom);
}

#[test]
fn input_render_plans() {
    let normal = input_render_plan(InputVariant::Outline, false, false, false, false);
    assert_eq!(normal.tone, InputTone::Normal);
    assert_eq!(normal.focus_tone, InputFocusTone::Focused);
    assert!(normal.hover_feedback && normal.hover_border);
    assert!(!normal.pointer_focus_ring);
    assert!(normal.keyboard_focus_ring);
    let invalid = input_render_plan(InputVariant::Underline, false, true, true, true);
    assert_eq!(invalid.tone, InputTone::Invalid);
    assert_eq!(invalid.focus_tone, InputFocusTone::InvalidFocused);
    assert!(invalid.shows_invalid_icon);
    assert!(!invalid.hover_feedback);
    assert!(invalid.bottom_border_only && invalid.square_corners && invalid.clips_content);
    let disabled = input_render_plan(InputVariant::Borderless, true, true, true, false);
    assert_eq!(disabled.tone, InputTone::Disabled);
    assert!(!disabled.keyboard_focus_ring && !disabled.pointer_focus_ring);
    let borderless = input_render_plan(InputVariant::Borderless, false, false, false, false);
    assert!(borderless.pointer_focus_ring);
    assert!(borderless.hover_feedback && !borderless.hover_border);
    let read_only = input_render_plan(InputVariant::Filled, false, true, false, false);
    assert_eq!(read_only.tone, InputTone::ReadOnly);
    assert_eq!(INVALID_ICON, "components/input/invalid.svg");
}

#[test]
fn assistive_set_value_is_a_user_edit() {
    let mut editor = InputState::new("old");
    assert!(editor.a11y_set_value("new\nline"));
    assert_eq!(editor.value(), "new line");
    assert_eq!(editor.undo(), Some(true));
    assert_eq!(editor.value(), "old");
    editor.configure(false, true, false);
    assert!(!editor.a11y_set_value("blocked"));
    assert_eq!(editor.value(), "old");
}

#[test]
fn editor_state_keys_and_cursor() {
    assert_eq!(editor_state_key(true, true, true, true), "disabled");
    assert_eq!(editor_state_key(false, true, true, false), "invalid-focus-visible");
    assert_eq!(editor_state_key(false, true, false, true), "invalid");
    assert_eq!(editor_state_key(false, false, true, true), "focus-visible");
    assert_eq!(editor_state_key(false, false, false, true), "read-only");
    assert_eq!(editor_state_key(false, false, false, false), "normal");
    assert_eq!(editor_cursor(true), CursorKind::NotAllowed);
    assert_eq!(editor_cursor(false), CursorKind::IBeam);
}
