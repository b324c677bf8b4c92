use shellchat::strings::{
    chars_of, find, is_space_char, rfind_char, same_chars, slice_of, split_lines, split_words,
    starts_with, text_eq, trim_bounds, trimmed, trimmed_after,
};
use shellchat::utils::text::{can_wrap_text, display_width, width_of_char, wrap_text};

fn lines(items: Vec<&str>) -> Vec<String> {
    items.into_iter().map(|l| l.to_string()).collect()
}

#[test]
fn narrow_characters_take_one_column_and_wide_ones_two() {
    assert_eq!(display_width(""), 0);
    assert_eq!(display_width("abc"), 3);
    assert_eq!(display_width("\u{4e2d}\u{6587}"), 4);
    assert_eq!(display_width("a\u{e9}\u{4e2d}"), 4);
    assert_eq!(display_width("\u{3042}\u{30a2}\u{d55c}"), 6);
    assert_eq!(display_width("\u{ff21}"), 2);
    assert_eq!(display_width("\u{1f600}"), 1);
    assert_eq!(width_of_char('a'), 1);
    assert_eq!(width_of_char('\u{1100}'), 2);
    assert_eq!(width_of_char('\u{115f}'), 2);
    assert_eq!(width_of_char('\u{1160}'), 1);
    assert_eq!(width_of_char('\u{10ff}'), 1);
    assert_eq!(width_of_char('\u{20000}'), 2);
    assert_eq!(width_of_char('\u{2ebef}'), 2);
    assert_eq!(width_of_char('\u{2ebf0}'), 1);
    assert_eq!(width_of_char('\u{2a6e0}'), 1);
}

#[test]
fn text_that_fits_is_one_line() {
    assert_eq!(wrap_text("", 10), Vec::<String>::new());
    assert_eq!(wrap_text("hello", 10), lines(vec!["hello"]));
    assert_eq!(wrap_text("hello world", 11), lines(vec!["hello world"]));
    assert_eq!(wrap_text("", 0), Vec::<String>::new());
}

#[test]
fn lines_break_at_the_last_blank_that_fits() {
    assert_eq!(wrap_text("hello world foo", 11), lines(vec!["hello", "world foo"]));
    assert_eq!(
        wrap_text("the quick brown fox jumps", 10),
        lines(vec!["the quick", "brown fox", "jumps"])
    );
    assert_eq!(wrap_text("a  b", 2), lines(vec!["a", "b"]));
    assert_eq!(wrap_text("ab   \t cd", 3), lines(vec!["ab", "cd"]));
}

#[test]
fn text_without_blanks_is_cut_at_the_width() {
    assert_eq!(wrap_text("abcdefghij", 4), lines(vec!["abcd", "efgh", "ij"]));
    assert_eq!(wrap_text("abc", 1), lines(vec!["a", "b", "c"]));
    assert_eq!(wrap_text(" leading", 3), lines(vec![" le", "adi", "ng"]));
}

#[test]
fn wide_characters_count_twice_when_wrapping() {
    assert_eq!(
        wrap_text("\u{4e2d}\u{6587}\u{5b57}\u{7b26}\u{6d4b}\u{8bd5}", 4),
        lines(vec!["\u{4e2d}\u{6587}", "\u{5b57}\u{7b26}", "\u{6d4b}\u{8bd5}"])
    );
    assert_eq!(
        wrap_text("a\u{4e2d}b\u{6587}", 3),
        lines(vec!["a\u{4e2d}", "b\u{6587}"])
    );
    assert_eq!(wrap_text("\u{4e2d} \u{6587}", 3), lines(vec!["\u{4e2d}", "\u{6587}"]));
}

#[test]
fn every_character_has_to_fit_into_a_line() {
    assert!(can_wrap_text("", 0));
    assert!(!can_wrap_text("a", 0));
    assert!(can_wrap_text("abc", 1));
    assert!(!can_wrap_text("a\u{4e2d}", 1));
    assert!(can_wrap_text("a\u{4e2d}", 2));
}

#[test]
fn no_line_is_wider_than_asked_for() {
    let text = "Lorem ipsum dolor sit amet, \u{4e2d}\u{6587}\u{5b57}\u{7b26} consectetur adipiscing elit";
    for max in 2..30usize {
        let wrapped = wrap_text(text, max);
        assert!(wrapped.iter().all(|l| display_width(l) <= max), "at width {}", max);
        assert!(wrapped.iter().all(|l| !l.is_empty()), "at width {}", max);
    }
}

#[test]
fn trimming_takes_unicode_white_space_away() {
    assert_eq!(trimmed("  a b \t\n"), "a b");
    assert_eq!(trimmed("\u{a0}\u{2003}x\u{3000}\u{85}"), "x");
    assert_eq!(trimmed("\u{200b}x"), "\u{200b}x");
    assert_eq!(trimmed(""), "");
    assert_eq!(trimmed(" \r\n "), "");
    assert_eq!(trimmed_after("data:  x ", 5), "x");
    let v = chars_of("  ab  ");
    assert_eq!(trim_bounds(&v, 0, 6), (2, 4));
    assert_eq!(trim_bounds(&v, 3, 5), (3, 4));
    assert_eq!(trim_bounds(&v, 4, 6), (6, 6));
}

#[test]
fn white_space_is_what_the_standard_library_calls_so() {
    for code in 0u32..0x3100 {
        if let Some(c) = char::from_u32(code) {
            assert_eq!(is_space_char(c), c.is_whitespace(), "at {:x}", code);
        }
    }
    assert!(!is_space_char('\u{feff}'));
    assert!(!is_space_char('\u{1f600}'));
}

#[test]
fn searching_finds_the_first_occurrence() {
    let hay = chars_of("abcabc\u{4e2d}abc");
    assert_eq!(find(&hay, &chars_of("bc"), 0), Some(1));
    assert_eq!(find(&hay, &chars_of("bc"), 2), Some(4));
    assert_eq!(find(&hay, &chars_of("bc"), 5), Some(8));
    assert_eq!(find(&hay, &chars_of("bc"), 9), None);
    assert_eq!(find(&hay, &chars_of("x"), 0), None);
    assert_eq!(find(&hay, &chars_of(""), 3), Some(3));
    assert_eq!(find(&hay, &chars_of(""), 10), Some(10));
    assert_eq!(find(&hay, &chars_of(""), 11), None);
    assert_eq!(find(&chars_of("ab"), &chars_of("abc"), 0), None);
    assert_eq!(rfind_char(&hay, 'a'), Some(7));
    assert_eq!(rfind_char(&hay, 'z'), None);
    assert_eq!(rfind_char(&chars_of(""), 'a'), None);
}

#[test]
fn texts_are_compared_and_cut_by_characters() {
    assert!(text_eq("abc", "abc"));
    assert!(!text_eq("abc", "abd"));
    assert!(!text_eq("abc", "ab"));
    assert!(text_eq("", ""));
    assert!(same_chars(&chars_of("\u{4e2d}"), &chars_of("\u{4e2d}")));
    assert_eq!(chars_of("a\u{4e2d}b"), vec!['a', '\u{4e2d}', 'b']);
    assert_eq!(slice_of("a\u{4e2d}bc", 1, 3), "\u{4e2d}b");
    assert_eq!(slice_of("abc", 3, 3), "");
    assert!(starts_with("data: x", "data:"));
    assert!(!starts_with("dat", "data:"));
    assert!(starts_with("x", ""));
}

#[test]
fn words_are_the_runs_between_white_space() {
    assert_eq!(split_words("  a  bc\td\n"), lines(vec!["a", "bc", "d"]));
    assert_eq!(split_words(""), Vec::<String>::new());
    assert_eq!(split_words(" \t "), Vec::<String>::new());
    assert_eq!(split_words("one"), lines(vec!["one"]));
    for text in vec!["  a  bc\td\n", "x\u{a0}y\u{3000}z", "", "  ", "a"] {
        let expected: Vec<String> = text.split_whitespace().map(|w| w.to_string()).collect();
        assert_eq!(split_words(text), expected);
    }
}

#[test]
fn lines_are_the_parts_between_line_feeds() {
    assert_eq!(split_lines("a\nb\n\nc"), lines(vec!["a", "b", "", "c"]));
    assert_eq!(split_lines("a\n"), lines(vec!["a"]));
    assert_eq!(split_lines("\n"), lines(vec![""]));
    assert_eq!(split_lines(""), Vec::<String>::new());
    assert_eq!(split_lines("a\r\nb"), lines(vec!["a\r", "b"]));
}
