use vektra::text::boundary::{
    nearest_grapheme_boundary, nearest_paired_boundary, next_grapheme_boundary,
    next_word_boundary, normalize_selection, previous_grapheme_boundary, previous_word_boundary,
    range_from_utf16, range_to_utf16, search_sorted, word_range_at,
};
use vektra::text::edit::{normalize_single_line, replace_text};
use vektra::text::utf::{
    char_len_utf16, char_len_utf8, chars_of, same_text, string_from_chars, text_len,
    utf16_to_utf8, utf8_to_utf16,
};

#[test]
fn utf_widths() {
    assert_eq!(char_len_utf8('a'), 1);
    assert_eq!(char_len_utf8('é'), 2);
    assert_eq!(char_len_utf8('你'), 3);
    assert_eq!(char_len_utf8('\u{1F600}'), 4);
    assert_eq!(char_len_utf16('你'), 1);
    assert_eq!(char_len_utf16('\u{1F600}'), 2);
    assert_eq!(text_len("a你"), 4);
    assert_eq!(chars_of("a你"), vec!['a', '你']);
    assert_eq!(string_from_chars(&['x', '你']), "x你");
    assert!(same_text("abc", "abc"));
    assert!(!same_text("abc", "abd"));
}

#[test]
fn utf16_offsets() {
    let text = "a\u{1F600}b";
    assert_eq!(utf8_to_utf16(text, 0), 0);
    assert_eq!(utf8_to_utf16(text, 1), 1);
    assert_eq!(utf8_to_utf16(text, 5), 3);
    assert_eq!(utf8_to_utf16(text, 6), 4);
    assert_eq!(utf8_to_utf16(text, 60), 4);
    assert_eq!(utf16_to_utf8(text, 1), 1);
    assert_eq!(utf16_to_utf8(text, 3), 5);
    assert_eq!(utf16_to_utf8(text, 4), 6);
    assert_eq!(utf16_to_utf8(text, 40), 6);
    assert_eq!(range_to_utf16(text, 1..6), 1..4);
    assert_eq!(range_from_utf16(text, 1..3), 1..5);
}

#[test]
fn grapheme_boundaries() {
    let text = "ae\u{301}b";
    assert_eq!(previous_grapheme_boundary(text, 4), 1);
    assert_eq!(previous_grapheme_boundary(text, 1), 0);
    assert_eq!(previous_grapheme_boundary(text, 0), 0);
    assert_eq!(next_grapheme_boundary(text, 1), 4);
    assert_eq!(next_grapheme_boundary(text, 4), 5);
    assert_eq!(next_grapheme_boundary(text, 5), 5);
    assert_eq!(nearest_grapheme_boundary(text, 2), 1);
    assert_eq!(nearest_grapheme_boundary(text, 3), 4);
    assert_eq!(nearest_grapheme_boundary(text, 50), 5);
    assert_eq!(normalize_selection(text, 3..2), 1..4);
    assert_eq!(normalize_selection(text, 0..9), 0..5);
}

#[test]
fn word_boundaries() {
    let text = "hello world";
    assert_eq!(previous_word_boundary(text, 11), 6);
    assert_eq!(previous_word_boundary(text, 6), 0);
    assert_eq!(previous_word_boundary(text, 0), 0);
    assert_eq!(next_word_boundary(text, 0), 5);
    assert_eq!(next_word_boundary(text, 5), 11);
    assert_eq!(next_word_boundary(text, 11), 11);
    assert_eq!(word_range_at(text, 2), 0..5);
    assert_eq!(word_range_at(text, 8), 6..11);
}

#[test]
fn sorted_search_and_pairing() {
    let v = [1usize, 3, 7];
    assert_eq!(search_sorted(&v, 3), Ok(1));
    assert_eq!(search_sorted(&v, 4), Err(2));
    assert_eq!(search_sorted(&v, 0), Err(0));
    assert_eq!(search_sorted(&v, 9), Err(3));
    let from = [0usize, 1, 2];
    let to = [0usize, 3, 6];
    assert_eq!(nearest_paired_boundary(1, &from, &to), 3);
    assert_eq!(nearest_paired_boundary(9, &from, &to), 6);
}

#[test]
fn replacing_and_single_line() {
    assert_eq!(replace_text("hello", 1..3, "EY"), "hEYlo");
    assert_eq!(replace_text("你好", 3..6, "们"), "你们");
    assert_eq!(replace_text("ab", 2..2, "c"), "abc");
    assert_eq!(normalize_single_line("a\r\nb"), "a b");
    assert_eq!(normalize_single_line("a\n\nb"), "a  b");
    assert_eq!(normalize_single_line("a\rb"), "a b");
    assert_eq!(normalize_single_line("plain"), "plain");
}
