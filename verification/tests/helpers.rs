use app_tui::profile_files::{has_suffix, strip, strip_prefix};
use app_tui::scheduler::{fast_refresh, slow_refresh, FAST_REFRESH, SLOW_REFRESH};
use app_tui::strings::{
    chars_le, code_point, decimal, join_texts, same_text, same_texts,
};
use app_tui::utils::{
    elapsed_words, find_position, format_elapsed, format_elapsed_time, get_last, get_next,
    shortcut_char, shortcut_index,
};

#[test]
fn next_and_last_around_a_match_in_the_middle() {
    let items = vec![10, 20, 30, 40, 50];
    assert_eq!(*get_next(&items, |it: &i32| *it == 30), 40);
    assert_eq!(*get_last(&items, |it: &i32| *it == 30), 20);
}

#[test]
fn next_and_last_without_a_match() {
    let items = vec![10, 20, 30, 40, 50];
    assert_eq!(*get_next(&items, |it: &i32| *it == 99), 50);
    assert_eq!(*get_last(&items, |it: &i32| *it == 99), 10);
}

#[test]
fn next_and_last_hold_at_the_ends() {
    let items = vec![10, 20, 30];
    assert_eq!(*get_next(&items, |it: &i32| *it == 30), 30);
    assert_eq!(*get_last(&items, |it: &i32| *it == 10), 10);
    assert_eq!(*get_next(&items, |it: &i32| *it == 10), 20);
    assert_eq!(*get_last(&items, |it: &i32| *it == 30), 20);
}

#[test]
fn next_and_last_go_by_the_first_match() {
    let items = vec![1, 7, 2, 7, 3];
    assert_eq!(*get_next(&items, |it: &i32| *it == 7), 2);
    assert_eq!(*get_last(&items, |it: &i32| *it == 7), 1);
    assert_eq!(find_position(&items, &|it: &i32| *it == 7), Some(1));
    assert_eq!(find_position(&items, &|it: &i32| *it == 9), None);
}

#[test]
fn next_and_last_of_a_single_item() {
    let items = vec![5];
    assert_eq!(*get_next(&items, |it: &i32| *it == 5), 5);
    assert_eq!(*get_last(&items, |it: &i32| *it == 5), 5);
    assert_eq!(*get_next(&items, |it: &i32| *it == 6), 5);
    assert_eq!(*get_last(&items, |it: &i32| *it == 6), 5);
}

#[test]
fn elapsed_time_in_words() {
    assert_eq!(format_elapsed_time(-5), "now");
    assert_eq!(format_elapsed_time(0), "now");
    assert_eq!(format_elapsed_time(1), "a second ago");
    assert_eq!(format_elapsed_time(2), "2 seconds age");
    assert_eq!(format_elapsed_time(59), "59 seconds age");
    assert_eq!(format_elapsed_time(60), "a minute ago");
    assert_eq!(format_elapsed_time(119), "a minute ago");
    assert_eq!(format_elapsed_time(120), "2 minutes ago");
    assert_eq!(format_elapsed_time(3599), "59 minutes ago");
    assert_eq!(format_elapsed_time(3600), "an hour ago");
    assert_eq!(format_elapsed_time(7200), "2 hours ago");
    assert_eq!(format_elapsed_time(86399), "23 hours ago");
    assert_eq!(format_elapsed_time(86400), "a day ago");
    assert_eq!(format_elapsed_time(172800), "2 days ago");
    assert_eq!(format_elapsed_time(604799), "6 days ago");
    assert_eq!(format_elapsed_time(604800), "a week ago");
    assert_eq!(format_elapsed_time(1209600), "2 weeks ago");
    assert_eq!(format_elapsed_time(2419199), "3 weeks ago");
    assert_eq!(format_elapsed_time(2419200), "a month ago");
    assert_eq!(format_elapsed_time(4838400), "2 months ago");
    assert_eq!(format_elapsed_time(31449599), "12 months ago");
    assert_eq!(format_elapsed_time(31449600), "a year ago");
    assert_eq!(format_elapsed_time(62899200), "2 years ago");
    assert_eq!(format_elapsed_time(i64::MAX), "293274701009 years ago");
}

#[test]
fn elapsed_time_between_two_readings() {
    assert_eq!(format_elapsed(1000, 1000), "now");
    assert_eq!(format_elapsed(1000, 2000), "now");
    assert_eq!(format_elapsed(1000, 940), "a minute ago");
    assert_eq!(format_elapsed(i64::MAX, i64::MIN), "586549402018 years ago");
    assert_eq!(elapsed_words(0), "now");
    assert_eq!(elapsed_words(7200), "2 hours ago");
}

#[test]
fn decimal_numerals() {
    assert_eq!(decimal(0), "0");
    assert_eq!(decimal(7), "7");
    assert_eq!(decimal(10), "10");
    assert_eq!(decimal(1234567890), "1234567890");
    assert_eq!(decimal(u64::MAX), "18446744073709551615");
}

#[test]
fn cadences_fall_on_multiples() {
    assert_eq!(FAST_REFRESH, 5);
    assert_eq!(SLOW_REFRESH, 30);
    for tick in 0u64..100 {
        assert_eq!(fast_refresh(tick), tick % 5 == 0);
        assert_eq!(slow_refresh(tick), tick % 30 == 0);
    }
}

#[test]
fn shortcuts_are_digits_then_letters() {
    assert_eq!(shortcut_index('0'), Some(0));
    assert_eq!(shortcut_index('9'), Some(9));
    assert_eq!(shortcut_index('a'), Some(10));
    assert_eq!(shortcut_index('z'), Some(35));
    assert_eq!(shortcut_index('A'), None);
    assert_eq!(shortcut_index('+'), None);
    assert_eq!(shortcut_char(0), Some('0'));
    assert_eq!(shortcut_char(10), Some('a'));
    assert_eq!(shortcut_char(35), Some('z'));
    assert_eq!(shortcut_char(36), None);
    for index in 0usize..36 {
        assert_eq!(shortcut_index(shortcut_char(index).unwrap()), Some(index));
    }
}

#[test]
fn suffixes_and_prefixes() {
    assert!(has_suffix("a.jar.disabled", ".disabled"));
    assert!(!has_suffix("a.jar", ".disabled"));
    assert!(!has_suffix("led", ".disabled"));
    assert!(has_suffix("x", ""));
    assert_eq!(strip("a.jar.disabled", ".disabled"), "a.jar");
    assert_eq!(strip("a.jar", ".disabled"), "a.jar");
    assert_eq!(strip("é.jar", ".jar"), "é");
    assert_eq!(strip(".jar", ".jar"), "");
    assert_eq!(strip_prefix("mods/a.jar", "mods/"), "a.jar");
    assert_eq!(strip_prefix("a.jar", "mods/"), "a.jar");
    assert_eq!(strip_prefix("ñ/é", "ñ/"), "é");
}

#[test]
fn texts_compare_by_code_point() {
    let le = |a: &str, b: &str| chars_le(&a.chars().collect(), &b.chars().collect());
    assert!(le("", ""));
    assert!(le("", "a"));
    assert!(!le("a", ""));
    assert!(le("a", "ab"));
    assert!(!le("ab", "a"));
    assert!(le("B", "a"));
    assert!(!le("a", "B"));
    assert!(le("abc", "abd"));
    assert!(le("z", "é"));
    for (a, b) in [("a", "b"), ("b", "a"), ("same", "same"), ("Zeta", "alpha"), ("é", "z")] {
        assert_eq!(le(a, b), a <= b);
    }
    assert_eq!(code_point('A'), 65);
}

#[test]
fn lists_of_strings() {
    let a = vec!["x".to_string(), "y".to_string()];
    let b = vec!["x".to_string(), "y".to_string()];
    let c = vec!["x".to_string(), "z".to_string()];
    let d = vec!["x".to_string()];
    assert!(same_texts(&a, &b));
    assert!(!same_texts(&a, &c));
    assert!(!same_texts(&a, &d));
    assert_eq!(join_texts(&a, ","), "x,y");
    assert_eq!(join_texts(&d, ","), "x");
    assert_eq!(join_texts(&Vec::new(), ","), "");
    assert!(same_text("a", "a"));
    assert!(!same_text("a", "b"));
}
