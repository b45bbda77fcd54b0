use app_tui::strings::{chars_of, string_of};
use app_tui::wrap::{join, split, trim, whitespace, wrap, wrap_body, BODY_WIDTH};

fn rows(lines: &[&str]) -> Vec<Vec<char>> {
    lines.iter().map(|line| line.chars().collect()).collect()
}

#[test]
fn wrap_keeps_a_short_text_on_one_line() {
    assert_eq!(wrap_body("hello world", BODY_WIDTH), "hello world");
}

#[test]
fn wrap_of_nothing_is_nothing() {
    assert_eq!(wrap_body("", BODY_WIDTH), "");
}

#[test]
fn wrap_breaks_before_the_word_that_does_not_fit() {
    let text = "aaaaaaaaaa bbbbbbbbbb cccccccccc dddddddddd eeeeeeeeee";
    assert_eq!(
        wrap_body(text, 40),
        "aaaaaaaaaa bbbbbbbbbb cccccccccc\ndddddddddd eeeeeeeeee"
    );
}

#[test]
fn wrap_fills_a_line_to_the_width_exactly() {
    let first = "x".repeat(37);
    let text = format!("{} zz tail", first);
    assert_eq!(wrap_body(&text, 40), format!("{} zz\ntail", first));
}

#[test]
fn wrap_counts_the_separator_on_every_line() {
    let text = format!("{} {} zz", "x".repeat(40), "y".repeat(38));
    let wrapped = wrap_body(&text, 40);
    assert_eq!(wrapped, format!("{}\n{}\nzz", "x".repeat(40), "y".repeat(38)));
    for line in wrapped.lines() {
        assert!(line.chars().count() <= 40);
    }
}

#[test]
fn wrap_gives_an_overlong_word_a_line_of_its_own() {
    let long = "w".repeat(50);
    assert_eq!(wrap_body(&long, 40), format!("\n{}", long));
    let text = format!("ab {} cd", long);
    assert_eq!(wrap_body(&text, 40), format!("ab\n{}\ncd", long));
}

#[test]
fn wrap_keeps_inner_spaces_and_trims_the_ends() {
    assert_eq!(wrap_body("a  b", 40), "a  b");
    assert_eq!(wrap_body("a b   ", 40), "a b");
    assert_eq!(wrap_body("  a b", 40), "a b");
}

#[test]
fn wrap_counts_characters_not_bytes() {
    let word = "é".repeat(20);
    let text = format!("{} {}", word, word);
    assert_eq!(wrap_body(&text, 41), text);
    assert_eq!(wrap_body(&text, 40), format!("{}\n{}", word, word));
}

#[test]
fn wrap_twice_gives_the_same_text() {
    let text = "The quick brown fox jumps over the lazy dog and keeps running far away";
    let once = wrap_body(text, 20);
    let again = wrap_body(text, 20);
    assert_eq!(once, again);
    assert_eq!(once, "The quick brown fox\njumps over the lazy\ndog and keeps\nrunning far away");
}

#[test]
fn wrap_at_another_width() {
    assert_eq!(wrap_body("one two three", 7), "one two\nthree");
    assert_eq!(wrap_body("one two three", 3), "one\ntwo\nthree");
}

#[test]
fn wrap_of_lines_agrees_with_wrap_of_the_body() {
    let text: Vec<char> = "one two three".chars().collect();
    assert_eq!(wrap(&text, 7), rows(&["one two", "three"]));
}

#[test]
fn split_yields_one_word_more_than_spaces() {
    let text: Vec<char> = " a  b ".chars().collect();
    assert_eq!(split(&text), rows(&["", "a", "", "b", ""]));
    let none: Vec<char> = Vec::new();
    assert_eq!(split(&none), rows(&[""]));
}

#[test]
fn trim_removes_white_space_at_both_ends_only() {
    let line: Vec<char> = " \t a b \u{a0}\n".chars().collect();
    assert_eq!(string_of(&trim(&line)), "a b");
    let blank: Vec<char> = " \t ".chars().collect();
    assert_eq!(trim(&blank), Vec::<char>::new());
}

#[test]
fn whitespace_is_what_std_calls_white_space() {
    for code in 0u32..0x3100 {
        if let Some(c) = char::from_u32(code) {
            assert_eq!(whitespace(c), c.is_whitespace(), "U+{:04X}", code);
        }
    }
}

#[test]
fn join_puts_a_line_feed_between_lines() {
    assert_eq!(string_of(&join(&rows(&["a", "b", "c"]))), "a\nb\nc");
    assert_eq!(string_of(&join(&rows(&["a"]))), "a");
    assert_eq!(string_of(&join(&rows(&[]))), "");
    assert_eq!(string_of(&join(&rows(&["", "x"]))), "\nx");
}

#[test]
fn chars_and_strings_convert_both_ways() {
    assert_eq!(chars_of("añ🙂"), vec!['a', 'ñ', '🙂']);
    assert_eq!(string_of(&vec!['a', 'ñ', '🙂']), "añ🙂");
}
