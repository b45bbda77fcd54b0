//! The tab that searches for projects to install.

use vstd::prelude::*;
use vstd::string::*;
use crate::cursor::moved;
use crate::keys::Key;
use crate::model::{ModLoader, Profile};
use crate::pages::page::{Action, ActionView, Handled, InstanceTab, Page, TabOutcome};
use crate::pages::view::body_routed;
use crate::scheduler::{fast_refresh, fires};
use crate::search::{turned_page, SearchState};
use crate::select::list_move;
use crate::strings::texts;
use crate::text_input::{blink_phase, is_text_key, text_after_key, TextState};

verus! {

/// The field of the tab that owns the keyboard.
#[derive(Clone, Copy, Debug, PartialEq, Eq, Structural)]
pub enum Input {
    /// No field: keys are shortcuts.
    Nothing,
    Search,
    Results,
}

/// The state of the search tab.
pub struct SearchDisplayData {
    pub input: Input,
    pub search: TextState,
    pub results: SearchState,
}

/// The facets that narrow a search to what fits an instance: mods, for its
/// loader, for its version of the game.
pub open spec fn facets_for(loader: ModLoader, game_version: Seq<char>) -> Seq<Seq<char>> {
    seq![
        "[\"project_type:mod\"]"@,
        "[\"categories:"@ + loader.name() + "\"]"@,
        "[\"versions:"@ + game_version + "\"]"@,
    ]
}

/// Executable form of [`facets_for`].
pub fn facets_of(profile: &Profile) -> (facets: Vec<String>)
    ensures
        texts(facets@) == facets_for(profile.loader, profile.game_version@),
{
    let kind = String::from_str("[\"project_type:mod\"]");
    let mut category = String::from_str("[\"categories:");
    category.append(profile.loader.as_str());
    category.append("\"]");
    let mut version = String::from_str("[\"versions:");
    version.append(profile.game_version.as_str());
    version.append("\"]");
    let facets = vec![kind, category, version];
    facets
}

/// What a key does on the search tab of the instance at `index`.
pub open spec fn search_step(
    pre: SearchDisplayData,
    index: usize,
    key: Key,
    post: SearchDisplayData,
    out: TabOutcome,
) -> bool {
    if key == Key::Esc && pre.input != Input::Nothing {
        &&& out.handled
        &&& out.action@ == ActionView::Nothing
        &&& post.input == Input::Nothing
        &&& post.search == pre.search
        &&& post.results == pre.results
    } else {
        match pre.input {
            Input::Search => {
                &&& out.handled == is_text_key(key)
                &&& out.action@ == ActionView::Nothing
                &&& post.input == pre.input
                &&& post.search.text() == text_after_key(pre.search.text(), key)
                &&& post.search.blink() == pre.search.blink()
                &&& post.results == pre.results
            },
            Input::Results => {
                &&& post.input == pre.input
                &&& post.search == pre.search
                &&& post.results.results == pre.results.results
                &&& post.results.installed == pre.results.installed
                &&& post.results.total == pre.results.total
                &&& post.results.last_facets == pre.results.last_facets
                &&& post.results.last_query == pre.results.last_query
                &&& post.results.page == match turned_page(
                    key,
                    pre.results.page,
                    pre.results.total,
                ) {
                    Some(page) => page,
                    None => pre.results.page,
                }
                &&& post.results.index == match list_move(key) {
                    Some(m) => moved(pre.results.index, pre.results.results@.len(), m),
                    None => pre.results.index,
                }
                &&& out.handled == (key == Key::Left || key == Key::Right || list_move(key) is Some
                    || key == Key::Enter)
                &&& out.action@ == if turned_page(key, pre.results.page, pre.results.total)
                    is Some {
                    ActionView::Search { query: post.results.current_query() }
                } else if key == Key::Enter && pre.results.index is Some {
                    ActionView::InstallProject {
                        index,
                        project_id: pre.results.results@[pre.results.index->Some_0 as int].project_id@,
                    }
                } else {
                    ActionView::Nothing
                }
            },
            Input::Nothing => {
                &&& out.handled == (key.is_letter('s', 'S') || key.is_letter('r', 'R'))
                &&& out.action@ == ActionView::Nothing
                &&& post.input == if key.is_letter('s', 'S') {
                    Input::Search
                } else if key.is_letter('r', 'R') {
                    Input::Results
                } else {
                    Input::Nothing
                }
                &&& post.search == pre.search
                &&& post.results == pre.results
            },
        }
    }
}

/// What a tick does on the search tab of the instance `profile`: the caret
/// advances, and on a fast-refresh boundary a search is asked for where
/// facets or text differ from those of the search last asked for.
pub open spec fn search_ticked(
    pre: SearchDisplayData,
    profile: Profile,
    tick: u64,
    post: SearchDisplayData,
    action: Action,
) -> bool {
    let current = (facets_for(profile.loader, profile.game_version@), pre.search.text());
    &&& post.input == pre.input
    &&& post.search.text() == pre.search.text()
    &&& post.search.blink() == blink_phase(tick)
    &&& post.results.index == pre.results.index
    &&& post.results.results == pre.results.results
    &&& post.results.installed == pre.results.installed
    &&& post.results.page == pre.results.page
    &&& post.results.total == pre.results.total
    &&& fires(pre.results.signature(), tick as nat, current) ==> {
        &&& post.results.signature() == current
        &&& action@ == ActionView::Search { query: post.results.current_query() }
    }
    &&& !fires(pre.results.signature(), tick as nat, current) ==> {
        &&& post.results.last_facets == pre.results.last_facets
        &&& post.results.last_query == pre.results.last_query
        &&& action@ == ActionView::Nothing
    }
}

impl SearchDisplayData {
    /// The selection among the results is valid.
    pub open spec fn wf(&self) -> bool {
        self.results.wf()
    }

    /// The tab before its first search.
    pub fn new() -> (data: Self)
        ensures
            data.wf(),
            data.input == Input::Nothing,
            data.search.text().len() == 0,
            data.results.index is None,
            data.results.results@.len() == 0,
            data.results.page == 0,
            data.results.total == 0,
            data.results.last_facets@.len() == 0,
            data.results.last_query@.len() == 0,
    {
        proof {
            reveal_strlit("");
        }
        Self { input: Input::Nothing, search: TextState::new(""), results: SearchState::new(None) }
    }

    /// Escape leaves the selected field. Without a field, `s` selects the
    /// search and `r` the results. The search field takes text. The results
    /// take the keys of the cursor, and Enter asks for the selected project
    /// to be installed; Enter is consumed even where nothing is selected.
    pub fn handle_key(&mut self, index: usize, key: Key) -> (out: TabOutcome)
        requires
            old(self).wf(),
        ensures
            final(self).wf(),
            out.tab is None,
            search_step(*old(self), index, key, *final(self), out),
    {
        if key == Key::Esc && self.input != Input::Nothing {
            self.input = Input::Nothing;
            TabOutcome::consumed()
        } else {
            match self.input {
                Input::Search => {
                    if self.search.on_key_press(key) {
                        TabOutcome::consumed()
                    } else {
                        TabOutcome::ignored()
                    }
                },
                Input::Results => {
                    let turned = self.results.on_key_press(key);
                    match turned.query {
                        Some(query) => TabOutcome::asking(Action::Search { query }),
                        None => {
                            if !turned.handled && key == Key::Enter {
                                match self.results.get() {
                                    Some(entry) => TabOutcome::asking(
                                        Action::InstallProject {
                                            index,
                                            project_id: entry.project_id,
                                        },
                                    ),
                                    None => TabOutcome::consumed(),
                                }
                            } else if turned.handled {
                                TabOutcome::consumed()
                            } else {
                                TabOutcome::ignored()
                            }
                        },
                    }
                },
                Input::Nothing => {
                    if key.letter('s', 'S') {
                        self.input = Input::Search;
                        TabOutcome::consumed()
                    } else if key.letter('r', 'R') {
                        self.input = Input::Results;
                        TabOutcome::consumed()
                    } else {
                        TabOutcome::ignored()
                    }
                },
            }
        }
    }
}

/// The handler of the search tab.
pub struct SearchDisplayBody();

impl SearchDisplayBody {
    /// Advances the caret, and on a fast-refresh boundary asks for a search
    /// where facets or text differ from those of the search last asked for.
    pub fn on_tick(profile: &Profile, search: &mut SearchDisplayData, tick_count: &u64) -> (action:
        Action)
        requires
            old(search).wf(),
        ensures
            final(search).wf(),
            search_ticked(*old(search), *profile, *tick_count, *final(search), action),
    {
        search.search.on_tick(tick_count);
        if fast_refresh(*tick_count) {
            match search.results.try_search(facets_of(profile), search.search.get()) {
                Some(query) => Action::Search { query },
                None => Action::Nothing,
            }
        } else {
            Action::Nothing
        }
    }

    /// Handles a key on the search tab of the viewed instance.
    pub fn on_key_press(page: &mut Page, key: Key) -> (out: Handled)
        requires
            old(page).wf(),
            old(page).viewing is Some,
        ensures
            final(page).wf(),
            body_routed(*old(page), InstanceTab::Search, key, *final(page), out),
    {
        let mut view = page.viewing.take().unwrap();
        let tab_out = view.search.handle_key(view.index, key);
        page.viewing = Some(view);
        Handled { handled: tab_out.handled, action: tab_out.action }
    }
}

} // verus!
