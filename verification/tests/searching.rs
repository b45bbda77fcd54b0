use app_tui::display::{installed_version, page_label, SearchEntryExt};
use app_tui::keys::Key;
use app_tui::model::{ModLoader, Profile, SearchEntry};
use app_tui::pages::page::{Action, TabOutcome};
use app_tui::pages::search_body::{facets_of, Input, SearchDisplayBody, SearchDisplayData};
use app_tui::search::{SearchKey, SearchState};

fn entry(id: &str) -> SearchEntry {
    SearchEntry {
        project_id: id.to_string(),
        title: format!("Title {}", id),
        author: "someone".to_string(),
        description: "text".to_string(),
        downloads: 1500,
        follows: 7,
        date_modified: 1_000_000,
    }
}

fn profile(loader: ModLoader) -> Profile {
    Profile {
        path: "test".to_string(),
        name: "Test".to_string(),
        game_version: "1.20.1".to_string(),
        loader,
        loader_version: None,
        memory: None,
        force_fullscreen: None,
        installed: true,
    }
}

fn loaded(count: usize, offset: u32, total_hits: u32) -> SearchState {
    let mut state = SearchState::new(None);
    let hits = (0..count).map(|i| entry(&format!("hit-{}", i))).collect();
    state.results_arrived(hits, offset, total_hits);
    state
}

#[test]
fn a_new_search_state_is_empty() {
    let state = SearchState::new(None);
    assert_eq!(state.index, None);
    assert!(state.results.is_empty());
    assert_eq!(state.page, 0);
    assert_eq!(state.total, 0);
    assert_eq!(state.get(), None);
    assert_eq!(state.search(), "?facets=[]&limit=10&offset=0&index=relevance&query=");
}

#[test]
fn the_query_names_facets_page_and_text() {
    let mut state = SearchState::new(None);
    let issued = state.try_search(vec!["a".to_string(), "b".to_string()], "foo".to_string());
    assert_eq!(
        issued,
        Some("?facets=[a,b]&limit=10&offset=0&index=relevance&query=foo".to_string())
    );
    state.results_arrived(vec![entry("x")], 20, 95);
    assert_eq!(state.search(), "?facets=[a,b]&limit=10&offset=20&index=relevance&query=foo");
}

#[test]
fn a_search_is_issued_only_for_a_new_signature() {
    let mut state = SearchState::new(None);
    let facets = vec!["a".to_string()];
    assert!(state.try_search(facets.clone(), "q".to_string()).is_some());
    assert_eq!(state.try_search(facets.clone(), "q".to_string()), None);
    assert!(state.try_search(facets.clone(), "q2".to_string()).is_some());
    assert!(state.try_search(vec!["b".to_string()], "q2".to_string()).is_some());
    assert_eq!(state.try_search(vec!["b".to_string()], "q2".to_string()), None);
    assert!(state.try_search(Vec::new(), "q2".to_string()).is_some());
    assert_eq!(state.last_query, "q2");
    assert!(state.last_facets.is_empty());
}

#[test]
fn results_set_page_and_total_and_reset_the_selection() {
    let mut state = loaded(3, 0, 3);
    assert!(state.on_key_press(Key::Down).handled);
    assert_eq!(state.index, Some(0));
    state.results_arrived(vec![entry("z")], 25, 95);
    assert_eq!(state.index, None);
    assert_eq!(state.page, 2);
    assert_eq!(state.total, 95);
    assert_eq!(state.results.len(), 1);
    assert_eq!(loaded(0, 0, 0).total, 0);
    assert_eq!(loaded(0, 0, 1).total, 1);
    assert_eq!(loaded(0, 0, 101).total, 101);
    assert_eq!(loaded(0, 0, u32::MAX).total, u32::MAX);
    assert_eq!(loaded(0, 9, 0).page, 0);
    assert_eq!(loaded(0, 10, 0).page, 1);
    assert_eq!(loaded(0, u32::MAX, 0).page, 429496729);
}

#[test]
fn the_cursor_moves_among_the_results() {
    let mut state = loaded(3, 0, 3);
    assert_eq!(state.on_key_press(Key::Up), SearchKey { handled: true, query: None });
    assert_eq!(state.index, Some(0));
    state.on_key_press(Key::Up);
    assert_eq!(state.index, Some(0));
    state.on_key_press(Key::Down);
    state.on_key_press(Key::Down);
    state.on_key_press(Key::Down);
    assert_eq!(state.index, Some(2));
    assert_eq!(state.get().unwrap().project_id, "hit-2");
    state.on_key_press(Key::PageUp);
    assert_eq!(state.index, Some(0));
    state.on_key_press(Key::PageDown);
    assert_eq!(state.index, Some(2));
    assert_eq!(state.on_key_press(Key::Enter), SearchKey { handled: false, query: None });
}

#[test]
fn left_turns_back_only_past_the_first_page() {
    let mut state = loaded(1, 10, 500);
    assert_eq!(state.page, 1);
    let turned = state.on_key_press(Key::Left);
    assert!(turned.handled);
    assert_eq!(
        turned.query,
        Some("?facets=[]&limit=10&offset=0&index=relevance&query=".to_string())
    );
    assert_eq!(state.page, 0);
    assert_eq!(state.on_key_press(Key::Left), SearchKey { handled: true, query: None });
    assert_eq!(state.page, 0);
}

#[test]
fn right_turns_on_while_results_stand_beyond_the_page() {
    let mut state = loaded(10, 0, 25);
    assert_eq!(
        state.on_key_press(Key::Right),
        SearchKey {
            handled: true,
            query: Some("?facets=[]&limit=10&offset=10&index=relevance&query=".to_string()),
        }
    );
    assert_eq!(state.page, 1);
    state.results_arrived(vec![entry("k")], 10, 25);
    assert_eq!(state.page, 1);
    assert_eq!(state.index, None);
    assert_eq!(
        state.on_key_press(Key::Right),
        SearchKey {
            handled: true,
            query: Some("?facets=[]&limit=10&offset=20&index=relevance&query=".to_string()),
        }
    );
    assert_eq!(state.page, 2);
    assert_eq!(state.on_key_press(Key::Right), SearchKey { handled: true, query: None });
    assert_eq!(state.page, 2);
}

#[test]
fn right_stops_at_the_last_page() {
    for (hits, turns) in [(0u32, 0u32), (1, 0), (10, 0), (11, 1), (20, 1), (21, 2), (100, 9)] {
        let mut state = loaded(0, 0, hits);
        let mut turned = 0;
        while state.on_key_press(Key::Right).query.is_some() {
            turned += 1;
        }
        assert_eq!(turned, turns, "{} hits", hits);
        assert_eq!(state.page, turns);
    }
}

#[test]
fn right_at_the_largest_counts_does_not_overflow() {
    let mut last = loaded(0, u32::MAX, u32::MAX);
    assert_eq!(last.page, 429496729);
    assert_eq!(last.on_key_press(Key::Right), SearchKey { handled: true, query: None });
    let mut before = loaded(0, 4294967280, u32::MAX);
    assert_eq!(before.page, 429496728);
    assert_eq!(
        before.on_key_press(Key::Right).query,
        Some("?facets=[]&limit=10&offset=4294967290&index=relevance&query=".to_string())
    );
    assert_eq!(before.page, 429496729);
}

#[test]
fn turning_the_page_keeps_results_until_the_answer_comes() {
    let mut state = loaded(2, 0, 500);
    state.on_key_press(Key::Down);
    state.on_key_press(Key::Right);
    assert_eq!(state.results.len(), 2);
    assert_eq!(state.index, Some(0));
}

#[test]
fn page_label_counts_from_one() {
    assert_eq!(page_label(&SearchState::new(None)), "[1/1]");
    assert_eq!(page_label(&loaded(0, 0, 1)), "[1/1]");
    assert_eq!(page_label(&loaded(0, 0, 10)), "[1/1]");
    assert_eq!(page_label(&loaded(0, 0, 25)), "[1/3]");
    assert_eq!(page_label(&loaded(0, 20, 25)), "[3/3]");
    assert_eq!(page_label(&loaded(0, 0, 100)), "[1/10]");
    assert_eq!(page_label(&loaded(0, 0, 101)), "[1/11]");
    assert_eq!(page_label(&loaded(0, 30, 1000)), "[4/100]");
}

#[test]
fn installed_projects_are_found_by_their_id() {
    let mut state = SearchState::new(None);
    state.set_installed(vec![
        ("alpha".to_string(), "v1".to_string()),
        ("beta".to_string(), "v2".to_string()),
        ("alpha".to_string(), "v3".to_string()),
    ]);
    assert_eq!(installed_version(&state, &entry("alpha")), Some("v1".to_string()));
    assert_eq!(installed_version(&state, &entry("beta")), Some("v2".to_string()));
    assert_eq!(installed_version(&state, &entry("gamma")), None);
}

#[test]
fn a_hit_says_when_it_was_changed() {
    let hit = entry("alpha");
    assert_eq!(hit.get_modified_display(1_000_000), "now");
    assert_eq!(hit.get_modified_display(1_000_120), "2 minutes ago");
    assert_eq!(hit.get_modified_display(999_000), "now");
    assert_eq!(hit.duplicate(), hit);
}

#[test]
fn facets_name_kind_loader_and_version() {
    assert_eq!(
        facets_of(&profile(ModLoader::Fabric)),
        vec![
            "[\"project_type:mod\"]".to_string(),
            "[\"categories:fabric\"]".to_string(),
            "[\"versions:1.20.1\"]".to_string(),
        ]
    );
    assert_eq!(facets_of(&profile(ModLoader::NeoForge))[1], "[\"categories:neoforge\"]");
}

#[test]
fn rapid_changes_lead_to_one_search_at_the_boundary() {
    let instance = profile(ModLoader::Fabric);
    let mut tab = SearchDisplayData::new();
    assert_eq!(SearchDisplayBody::on_tick(&instance, &mut tab, &5), Action::Search {
        query: "?facets=[[\"project_type:mod\"],[\"categories:fabric\"],[\"versions:1.20.1\"]]&limit=10&offset=0&index=relevance&query=".to_string(),
    });
    assert!(tab.handle_key(0, Key::Char('s')).handled);
    let mut fired = Vec::new();
    for (tick, letter) in [(6u64, 's'), (7, 'o'), (8, 'd'), (9, 'a'), (10, '!')] {
        assert!(tab.handle_key(0, Key::Char(letter)).handled);
        let action = SearchDisplayBody::on_tick(&instance, &mut tab, &tick);
        if action != Action::Nothing {
            fired.push((tick, action));
        }
    }
    assert_eq!(fired.len(), 1);
    assert_eq!(fired[0].0, 10);
    assert_eq!(fired[0].1, Action::Search {
        query: "?facets=[[\"project_type:mod\"],[\"categories:fabric\"],[\"versions:1.20.1\"]]&limit=10&offset=0&index=relevance&query=soda!".to_string(),
    });
    for tick in 11u64..=30 {
        assert_eq!(SearchDisplayBody::on_tick(&instance, &mut tab, &tick), Action::Nothing);
    }
}

#[test]
fn a_change_between_boundaries_waits_for_the_next_one() {
    let instance = profile(ModLoader::Forge);
    let mut tab = SearchDisplayData::new();
    SearchDisplayBody::on_tick(&instance, &mut tab, &5);
    tab.handle_key(0, Key::Char('s'));
    tab.handle_key(0, Key::Char('x'));
    for tick in 6u64..10 {
        assert_eq!(SearchDisplayBody::on_tick(&instance, &mut tab, &tick), Action::Nothing);
    }
    assert!(SearchDisplayBody::on_tick(&instance, &mut tab, &10) != Action::Nothing);
}

#[test]
fn the_search_tab_routes_keys_by_field() {
    let mut tab = SearchDisplayData::new();
    assert_eq!(tab.handle_key(3, Key::Char('x')), TabOutcome::ignored());
    assert_eq!(tab.handle_key(3, Key::Esc), TabOutcome::ignored());
    assert_eq!(tab.handle_key(3, Key::Char('R')), TabOutcome::consumed());
    assert_eq!(tab.input, Input::Results);
    assert_eq!(tab.handle_key(3, Key::Enter), TabOutcome::consumed());
    assert_eq!(tab.handle_key(3, Key::Char('s')), TabOutcome::ignored());
    assert_eq!(tab.handle_key(3, Key::Esc), TabOutcome::consumed());
    assert_eq!(tab.input, Input::Nothing);
    assert_eq!(tab.handle_key(3, Key::Char('S')), TabOutcome::consumed());
    assert_eq!(tab.input, Input::Search);
    assert_eq!(tab.handle_key(3, Key::Char('r')), TabOutcome::consumed());
    assert_eq!(tab.search.get(), "r");
    assert_eq!(tab.handle_key(3, Key::Enter), TabOutcome::ignored());
}

#[test]
fn enter_on_a_result_asks_for_its_installation() {
    let mut tab = SearchDisplayData::new();
    tab.results.results_arrived(vec![entry("alpha"), entry("beta")], 0, 200);
    tab.handle_key(3, Key::Char('r'));
    tab.handle_key(3, Key::Down);
    tab.handle_key(3, Key::Down);
    assert_eq!(
        tab.handle_key(3, Key::Enter),
        TabOutcome::asking(Action::InstallProject { index: 3, project_id: "beta".to_string() })
    );
    assert_eq!(
        tab.handle_key(3, Key::Right),
        TabOutcome::asking(Action::Search {
            query: "?facets=[]&limit=10&offset=10&index=relevance&query=".to_string(),
        })
    );
}

#[test]
fn a_new_search_state_keeps_the_index_it_is_given() {
    assert_eq!(SearchState::new(None).index, None);
    let state = SearchState::new(Some(3));
    assert_eq!(state.index, Some(3));
    assert!(state.results.is_empty());
    assert_eq!(state.page, 0);
    assert_eq!(state.total, 0);
}
