//! The tab that shows the log of an instance and filters it.

use vstd::prelude::*;
use vstd::string::*;
use crate::keys::Key;
use crate::log_text::{expand_tabs, matching_lines, shown_lines, tabs_expanded};
use crate::model::Profile;
use crate::pages::page::{Handled, InstanceTab, Page, TabOutcome};
use crate::pages::view::body_routed;
use crate::scheduler::{fast_refresh, fires};
use crate::select::{list_move, SelectState};
use crate::strings::{chars_of, string_of, texts};
use crate::text_input::{blink_phase, is_text_key, text_after_key, TextState};
use crate::cursor::moved;

verus! {

/// The field of the tab that owns the keyboard.
#[derive(Clone, Copy, Debug, PartialEq, Eq, Structural)]
pub enum Input {
    /// No field: keys are shortcuts.
    Nothing,
    Search,
    Logs,
}

/// The state of the log tab.
pub struct LogsDisplayData {
    pub input: Input,
    pub search: TextState,
    /// The lines that are shown.
    pub logs: SelectState<String>,
    /// The search that the shown lines were filtered by.
    pub last_search: String,
    /// The whole log, tabs expanded.
    pub original: String,
}

impl LogsDisplayData {
    /// The selection among the lines is valid.
    pub open spec fn wf(&self) -> bool {
        self.logs.wf()
    }

    /// The tab over the log `log`, or over nothing where the log could not
    /// be had: every line shown, none selected, the search empty.
    pub fn new(log: Option<String>) -> (data: Self)
        ensures
            data.wf(),
            logs_open_on(data, log),
    {
        proof {
            reveal_strlit("");
        }
        match log {
            Some(text) => {
                let original = string_of(&expand_tabs(&chars_of(text.as_str())));
                let lines = matching_lines(original.as_str(), "");
                assert(""@ =~= Seq::<char>::empty());
                Self {
                    input: Input::Nothing,
                    search: TextState::new(""),
                    logs: SelectState::new(None, lines),
                    last_search: String::new(),
                    original,
                }
            },
            None => Self {
                input: Input::Nothing,
                search: TextState::new(""),
                logs: SelectState::new(None, Vec::new()),
                last_search: String::new(),
                original: String::new(),
            },
        }
    }

    /// Escape leaves the selected field. Without a field, `s` selects the
    /// search and `l` the lines; with one, the key goes to it.
    pub fn handle_key(&mut self, key: Key) -> (out: TabOutcome)
        requires
            old(self).wf(),
        ensures
            final(self).wf(),
            out.tab is None,
            out.action@ == crate::pages::page::ActionView::Nothing,
            final(self).last_search == old(self).last_search,
            final(self).original == old(self).original,
            final(self).logs.options() == old(self).logs.options(),
            logs_step(*old(self), key, *final(self), out.handled),
    {
        if key == Key::Esc && self.input != Input::Nothing {
            self.input = Input::Nothing;
            TabOutcome::consumed()
        } else {
            let handled: bool = match self.input {
                Input::Search => self.search.on_key_press(key),
                Input::Logs => self.logs.on_key_press(key),
                Input::Nothing => {
                    if key.letter('s', 'S') {
                        self.input = Input::Search;
                        true
                    } else if key.letter('l', 'L') {
                        self.input = Input::Logs;
                        true
                    } else {
                        false
                    }
                },
            };
            if handled {
                TabOutcome::consumed()
            } else {
                TabOutcome::ignored()
            }
        }
    }
}

/// Whether `data` is the log tab as it opens on the log `log`, or on nothing
/// where the log could not be had: no field selected, the search empty, the
/// caret hidden, the log with its tabs expanded, every line shown and none
/// selected.
pub open spec fn logs_open_on(data: LogsDisplayData, log: Option<String>) -> bool {
    &&& data.input == Input::Nothing
    &&& data.search.text().len() == 0
    &&& !data.search.blink()
    &&& data.last_search@.len() == 0
    &&& data.logs.index() is None
    &&& match log {
        Some(text) => data.original@ == tabs_expanded(text@) && texts(data.logs.options())
            == shown_lines(data.original@, Seq::<char>::empty()),
        None => data.original@.len() == 0 && data.logs.options().len() == 0,
    }
}

/// What a tick does on the log tab: the caret advances, and on a
/// fast-refresh boundary the log is filtered anew where the search has
/// changed since the log was last filtered.
pub open spec fn logs_ticked(pre: LogsDisplayData, tick: u64, post: LogsDisplayData) -> bool {
    &&& post.input == pre.input
    &&& post.original == pre.original
    &&& post.search.text() == pre.search.text()
    &&& post.search.blink() == blink_phase(tick)
    &&& fires(pre.last_search@, tick as nat, pre.search.text()) ==> {
        &&& post.last_search@ == pre.search.text()
        &&& post.logs.index() is None
        &&& texts(post.logs.options()) == shown_lines(pre.original@, pre.search.text())
    }
    &&& !fires(pre.last_search@, tick as nat, pre.search.text()) ==> {
        &&& post.last_search == pre.last_search
        &&& post.logs == pre.logs
    }
}

/// What a key does on the log tab.
pub open spec fn logs_step(pre: LogsDisplayData, key: Key, post: LogsDisplayData, handled: bool) -> bool {
    if key == Key::Esc && pre.input != Input::Nothing {
        &&& handled
        &&& post.input == Input::Nothing
        &&& post.search == pre.search
        &&& post.logs == pre.logs
    } else {
        match pre.input {
            Input::Search => {
                &&& handled == is_text_key(key)
                &&& post.input == pre.input
                &&& post.search.text() == text_after_key(pre.search.text(), key)
                &&& post.search.blink() == pre.search.blink()
                &&& post.logs == pre.logs
            },
            Input::Logs => {
                &&& handled == list_move(key).is_some()
                &&& post.input == pre.input
                &&& post.search == pre.search
                &&& post.logs.index() == match list_move(key) {
                    Some(m) => moved(pre.logs.index(), pre.logs.options().len(), m),
                    None => pre.logs.index(),
                }
            },
            Input::Nothing => {
                &&& handled == (key.is_letter('s', 'S') || key.is_letter('l', 'L'))
                &&& post.input == if key.is_letter('s', 'S') {
                    Input::Search
                } else if key.is_letter('l', 'L') {
                    Input::Logs
                } else {
                    Input::Nothing
                }
                &&& post.search == pre.search
                &&& post.logs == pre.logs
            },
        }
    }
}

/// The handler of the log tab.
pub struct LogsDisplayBody();

impl LogsDisplayBody {
    /// Advances the caret, and on a fast-refresh boundary filters the log
    /// anew where the search has changed since it was last filtered by. The
    /// instance plays no part.
    pub fn on_tick(profile: &Profile, logs: &mut LogsDisplayData, tick_count: &u64)
        requires
            old(logs).wf(),
        ensures
            final(logs).wf(),
            logs_ticked(*old(logs), *tick_count, *final(logs)),
    {
        logs.search.on_tick(tick_count);
        let search = logs.search.get();
        if fast_refresh(*tick_count) && search != logs.last_search {
            let log_lines = matching_lines(logs.original.as_str(), search.as_str());
            logs.last_search = search;
            logs.logs = SelectState::new(None, log_lines);
        }
    }

    /// Handles a key on the log tab of the viewed instance.
    pub fn on_key_press(page: &mut Page, key: Key) -> (out: Handled)
        requires
            old(page).wf(),
            old(page).viewing is Some,
        ensures
            final(page).wf(),
            body_routed(*old(page), InstanceTab::Logs, key, *final(page), out),
    {
        let mut view = page.viewing.take().unwrap();
        let tab_out = view.logs.handle_key(key);
        page.viewing = Some(view);
        Handled { handled: tab_out.handled, action: tab_out.action }
    }
}

} // verus!
