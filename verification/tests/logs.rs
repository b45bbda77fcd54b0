use app_tui::keys::Key;
use app_tui::log_text::{contains, expand_tabs, matching_lines, split_lines};
use app_tui::model::{ModLoader, Profile};
use app_tui::pages::logs::{Input, LogsDisplayBody, LogsDisplayData};
use app_tui::pages::page::TabOutcome;

fn instance() -> Profile {
    Profile {
        path: "profiles/one".to_string(),
        name: "One".to_string(),
        game_version: "1.20.1".to_string(),
        loader: ModLoader::Fabric,
        loader_version: None,
        memory: None,
        force_fullscreen: None,
        installed: true,
    }
}

fn lines_of(text: &str) -> Vec<String> {
    split_lines(&text.chars().collect()).into_iter().map(|l| l.into_iter().collect()).collect()
}

#[test]
fn lines_end_at_line_feeds() {
    assert_eq!(lines_of("a\nb"), vec!["a", "b"]);
    assert_eq!(lines_of("a\nb\n"), vec!["a", "b"]);
    assert_eq!(lines_of("a\r\nb\r\n"), vec!["a", "b"]);
    assert_eq!(lines_of("a\n\nb"), vec!["a", "", "b"]);
    assert_eq!(lines_of(""), Vec::<String>::new());
    assert_eq!(lines_of("\n"), vec![""]);
    assert_eq!(lines_of("a\r"), vec!["a\r"]);
    assert_eq!(lines_of("\r\n"), vec![""]);
    assert_eq!(lines_of("a\r\r\nb"), vec!["a\r", "b"]);
}

#[test]
fn lines_agree_with_std() {
    for text in ["", "x", "x\n", "\n\n", "a\r\nb\rc\n\rd", "tail\r", "\r\n\r\n", "é\nñ"] {
        let expected: Vec<String> = text.lines().map(|l| l.to_string()).collect();
        assert_eq!(lines_of(text), expected, "{:?}", text);
    }
}

#[test]
fn tabs_become_four_spaces() {
    let text: Vec<char> = "a\tb\t".chars().collect();
    let out: String = expand_tabs(&text).into_iter().collect();
    assert_eq!(out, "a    b    ");
}

#[test]
fn contains_finds_a_part_anywhere() {
    let has = |hay: &str, needle: &str| contains(&hay.chars().collect(), &needle.chars().collect());
    assert!(has("hello", "ell"));
    assert!(has("hello", "hello"));
    assert!(has("hello", ""));
    assert!(has("", ""));
    assert!(has("hello", "o"));
    assert!(has("hello", "h"));
    assert!(!has("hello", "hello!"));
    assert!(!has("hello", "lo!"));
    assert!(!has("", "a"));
    assert!(has("aab", "ab"));
}

#[test]
fn the_filter_matches_lower_case_lines() {
    let log = "Hello World\nfoo\nHELLO again\n";
    assert_eq!(matching_lines(log, "hello"), vec!["Hello World", "HELLO again"]);
    assert_eq!(matching_lines(log, "oo"), vec!["foo"]);
    assert_eq!(matching_lines(log, ""), vec!["Hello World", "foo", "HELLO again"]);
    assert_eq!(matching_lines(log, "Hello"), Vec::<String>::new());
    assert_eq!(matching_lines("ÉCOLE\nx", "école"), vec!["ÉCOLE"]);
}

#[test]
fn a_new_log_tab_shows_every_line() {
    let tab = LogsDisplayData::new(Some("one\ttwo\nthree\n".to_string()));
    assert_eq!(tab.original, "one    two\nthree\n");
    assert_eq!(tab.logs.items(), &vec!["one    two".to_string(), "three".to_string()]);
    assert_eq!(tab.logs.selected(), None);
    assert_eq!(tab.input, Input::Nothing);
    assert_eq!(tab.search.get(), "");
    let none = LogsDisplayData::new(None);
    assert!(none.logs.items().is_empty());
    assert_eq!(none.original, "");
}

#[test]
fn the_log_is_filtered_on_the_boundary_after_a_change() {
    let mut tab = LogsDisplayData::new(Some("Alpha\nbeta\nGamma\n".to_string()));
    assert_eq!(tab.handle_key(Key::Char('s')), TabOutcome::consumed());
    assert_eq!(tab.handle_key(Key::Char('a')), TabOutcome::consumed());
    for tick in 1u64..5 {
        LogsDisplayBody::on_tick(&instance(), &mut tab, &tick);
        assert_eq!(tab.logs.items().len(), 3);
    }
    tab.handle_key(Key::Char('m'));
    LogsDisplayBody::on_tick(&instance(), &mut tab, &5);
    assert_eq!(tab.logs.items(), &vec!["Gamma".to_string()]);
    assert_eq!(tab.last_search, "am");
    tab.handle_key(Key::Backspace);
    tab.handle_key(Key::Backspace);
    LogsDisplayBody::on_tick(&instance(), &mut tab, &6);
    assert_eq!(tab.logs.items().len(), 1);
    LogsDisplayBody::on_tick(&instance(), &mut tab, &10);
    assert_eq!(tab.logs.items().len(), 3);
}

#[test]
fn an_unchanged_search_keeps_the_selection() {
    let mut tab = LogsDisplayData::new(Some("a\nb\n".to_string()));
    tab.handle_key(Key::Char('l'));
    assert_eq!(tab.input, Input::Logs);
    assert_eq!(tab.handle_key(Key::Down), TabOutcome::consumed());
    tab.handle_key(Key::Down);
    assert_eq!(tab.logs.selected(), Some(1));
    LogsDisplayBody::on_tick(&instance(), &mut tab, &5);
    LogsDisplayBody::on_tick(&instance(), &mut tab, &10);
    assert_eq!(tab.logs.selected(), Some(1));
    assert_eq!(tab.handle_key(Key::Char('s')), TabOutcome::ignored());
    assert_eq!(tab.handle_key(Key::Esc), TabOutcome::consumed());
    assert_eq!(tab.input, Input::Nothing);
    assert_eq!(tab.handle_key(Key::Esc), TabOutcome::ignored());
}
