//! The detail view of one instance and the routing of keys among its tabs.

use vstd::prelude::*;
use vstd::string::*;
use crate::keys::Key;
use crate::model::{Profile, ProfileFile};
use crate::pages::logs::{logs_open_on, logs_ticked, LogsDisplayBody, LogsDisplayData};
use crate::pages::mods::{mods_key, mods_open_on, ModDisplayBody, ModDisplayData};
use crate::pages::options::{
    fullscreen_index, memory_index, options_ticked, OptionsDisplayBody, OptionsDisplayData,
};
use crate::files::{files_of, no_files};
use crate::pages::page::{Action, ActionView, Handled, InstanceTab, Page, TabOutcome};
use crate::pages::search_body::{search_ticked, SearchDisplayBody, SearchDisplayData};
use crate::scheduler::{is_slow_refresh, slow_refresh};

verus! {

/// The state of the detail view of the instance at `index`.
pub struct InstanceViewData {
    pub index: usize,
    /// Whether the instance's game is believed to run.
    pub is_playing: bool,
    pub tab: InstanceTab,
    pub mods: ModDisplayData,
    pub options: OptionsDisplayData,
    pub search: SearchDisplayData,
    pub logs: LogsDisplayData,
}

/// What a tick asks of the caller.
#[derive(Clone, Debug, PartialEq, Eq)]
pub struct Ticked {
    /// Whether to ask the backend if the viewed instance still runs, for
    /// `Page::playing_observed`.
    pub poll_playing: bool,
    /// The search to send, where one is due.
    pub action: Action,
}

/// What the shortcuts shared by all tabs do with a key that the tab left
/// alone: Escape goes back to the files tab from any other, `p` starts the
/// game unless it runs, `o` opens the settings.
pub open spec fn shared_shortcut(tab: InstanceTab, is_playing: bool, key: Key) -> (
    bool,
    InstanceTab,
    bool,
) {
    if key == Key::Esc && tab != InstanceTab::Mods {
        (true, InstanceTab::Mods, false)
    } else if key.is_letter('p', 'P') && !is_playing {
        (true, tab, true)
    } else if key.is_letter('o', 'O') {
        (true, InstanceTab::Options, false)
    } else {
        (false, tab, false)
    }
}

/// Whether `view` is the detail view as it opens on the instance `profile`
/// at `index`: the files tab in front, the game not running, no field
/// selected anywhere, no files, no log and no search results yet, and the
/// settings those of the profile.
pub open spec fn opens_on(view: InstanceViewData, index: usize, profile: Profile) -> bool {
    &&& view.index == index
    &&& !view.is_playing
    &&& view.tab == InstanceTab::Mods
    &&& view.mods.files is Ok
    &&& files_of(view.mods.files->Ok_0) == no_files()
    &&& view.mods.selected_project is None
    &&& !view.mods.deleting
    &&& view.logs.input == crate::pages::logs::Input::Nothing
    &&& view.logs.search.text().len() == 0
    &&& view.logs.last_search@.len() == 0
    &&& view.logs.original@.len() == 0
    &&& view.logs.logs.index() is None
    &&& view.logs.logs.options().len() == 0
    &&& view.options.input == crate::pages::options::Input::Nothing
    &&& !view.options.deleting
    &&& view.options.memory.index() == memory_index(profile)
    &&& view.options.fullscreen.index() == fullscreen_index(profile)
    &&& view.options.actions.index() is None
    &&& view.options.name.text() == profile.name@
    &&& view.search.input == crate::pages::search_body::Input::Nothing
    &&& view.search.search.text().len() == 0
    &&& view.search.results.index is None
    &&& view.search.results.results@.len() == 0
    &&& view.search.results.page == 0
    &&& view.search.results.total == 0
    &&& view.search.results.last_facets@.len() == 0
    &&& view.search.results.last_query@.len() == 0
}

/// What a key does when it goes to the tab in front of the view `pre` of the
/// instance `profile`: the tab's own handler acts, and the other tabs stay
/// as they are.
pub open spec fn tab_keyed(
    pre: InstanceViewData,
    profile: Profile,
    key: Key,
    post: InstanceViewData,
    out: TabOutcome,
) -> bool {
    &&& post.index == pre.index
    &&& post.is_playing == pre.is_playing
    &&& post.tab == pre.tab
    &&& match pre.tab {
        InstanceTab::Mods => {
            &&& post.options == pre.options
            &&& post.search == pre.search
            &&& post.logs == pre.logs
            &&& mods_key(
                pre.mods,
                pre.index,
                profile.loader,
                key,
                post.mods,
                out,
            )
        },
        InstanceTab::Search => {
            &&& out.tab is None
            &&& post.options == pre.options
            &&& post.mods == pre.mods
            &&& post.logs == pre.logs
            &&& crate::pages::search_body::search_step(
                pre.search,
                pre.index,
                key,
                post.search,
                out,
            )
        },
        InstanceTab::Options => {
            &&& post.search == pre.search
            &&& post.mods == pre.mods
            &&& post.logs == pre.logs
            &&& crate::pages::options::options_step(
                pre.options,
                pre.index,
                key,
                post.options,
                out,
            )
        },
        InstanceTab::Logs => {
            &&& out.tab is None
            &&& out.action@ == ActionView::Nothing
            &&& post.options == pre.options
            &&& post.search == pre.search
            &&& post.mods == pre.mods
            &&& post.logs.last_search == pre.logs.last_search
            &&& post.logs.original == pre.logs.original
            &&& post.logs.logs.options() == pre.logs.logs.options()
            &&& crate::pages::logs::logs_step(
                pre.logs,
                key,
                post.logs,
                out.handled,
            )
        },
    }
}

/// What a tick does to the view `pre` of the instance `profile`: the tab in
/// front is run, the other tabs stay as they are, and the slow refresh is
/// due only for a game believed to run.
pub open spec fn view_ticked(
    pre: InstanceViewData,
    profile: Profile,
    tick: u64,
    post: InstanceViewData,
    out: Ticked,
) -> bool {
    &&& post.index == pre.index
    &&& post.is_playing == pre.is_playing
    &&& post.tab == pre.tab
    &&& post.mods == pre.mods
    &&& out.poll_playing == (is_slow_refresh(tick as nat) && pre.is_playing)
    &&& match pre.tab {
        InstanceTab::Mods => {
            &&& out.action@ == ActionView::Nothing
            &&& post.options == pre.options
            &&& post.search == pre.search
            &&& post.logs == pre.logs
        },
        InstanceTab::Search => {
            &&& post.options == pre.options
            &&& post.logs == pre.logs
            &&& search_ticked(
                pre.search,
                profile,
                tick,
                post.search,
                out.action,
            )
        },
        InstanceTab::Options => {
            &&& out.action@ == ActionView::Nothing
            &&& post.search == pre.search
            &&& post.logs == pre.logs
            &&& options_ticked(pre.options, tick, post.options)
        },
        InstanceTab::Logs => {
            &&& out.action@ == ActionView::Nothing
            &&& post.options == pre.options
            &&& post.search == pre.search
            &&& logs_ticked(pre.logs, tick, post.logs)
        },
    }
}

impl InstanceViewData {
    /// Every tab is well-formed.
    pub open spec fn wf(&self) -> bool {
        &&& self.options.wf()
        &&& self.search.wf()
        &&& self.logs.wf()
    }

    /// The view as it opens on the instance at `index` of `page`: the files
    /// tab in front, the game not running, no files and no log yet.
    pub fn new(index: usize, page: &Page) -> (data: Self)
        requires
            index < page.instances@.len(),
        ensures
            data.wf(),
            opens_on(data, index, page.instances@[index as int]),
    {
        let profile = &page.instances[index];
        let none: Vec<(String, ProfileFile)> = Vec::new();
        Self {
            index,
            is_playing: false,
            tab: InstanceTab::Mods,
            logs: LogsDisplayData::new(None),
            mods: ModDisplayData::new(Ok(none)),
            options: OptionsDisplayData::new(profile),
            search: SearchDisplayData::new(),
        }
    }

    /// Takes in the log and the files of the instance.
    pub fn loaded(
        &mut self,
        log: Option<String>,
        files: Result<Vec<(String, ProfileFile)>, String>,
    )
        requires
            old(self).wf(),
        ensures
            final(self).wf(),
            final(self).index == old(self).index,
            final(self).is_playing == old(self).is_playing,
            final(self).tab == old(self).tab,
            final(self).options == old(self).options,
            final(self).search == old(self).search,
            logs_open_on(final(self).logs, log),
            mods_open_on(final(self).mods, files),
    {
        self.logs = LogsDisplayData::new(log);
        self.mods = ModDisplayData::new(files);
    }

    /// Runs the tab in front on one tick of the instance `profile`, and
    /// says whether the slow refresh is due for a game believed to run.
    pub fn on_tick(&mut self, profile: &Profile, tick_count: &u64) -> (out: Ticked)
        requires
            old(self).wf(),
        ensures
            final(self).wf(),
            view_ticked(*old(self), *profile, *tick_count, *final(self), out),
    {
        let poll_playing = slow_refresh(*tick_count) && self.is_playing;
        let action = match self.tab {
            InstanceTab::Search => SearchDisplayBody::on_tick(profile, &mut self.search, tick_count),
            InstanceTab::Options => {
                OptionsDisplayBody::on_tick(profile, &mut self.options, tick_count);
                Action::Nothing
            },
            InstanceTab::Logs => {
                LogsDisplayBody::on_tick(profile, &mut self.logs, tick_count);
                Action::Nothing
            },
            InstanceTab::Mods => Action::Nothing,
        };
        Ticked { poll_playing, action }
    }
}

/// The handler of the detail view.
pub struct ViewInstanceSection();

/// What a key does when it goes to the handler of the tab `tab` of the
/// viewed instance, whichever tab is in front: the handler acts on its own
/// tab's state, a switch of tabs that it asks for is made, and nothing but
/// the detail view changes.
pub open spec fn body_routed(pre: Page, tab: InstanceTab, key: Key, post: Page, out: Handled) -> bool {
    let view = pre.viewing->Some_0;
    let next = post.viewing->Some_0;
    let profile = pre.instances@[view.index as int];
    &&& post.loading == pre.loading
    &&& post.accounts == pre.accounts
    &&& post.instances == pre.instances
    &&& post.section == pre.section
    &&& post.creation_data == pre.creation_data
    &&& post.viewing is Some
    &&& exists|tab_out: TabOutcome|
        #![trigger tab_out.handled]
        {
            &&& tab_keyed(
                InstanceViewData { tab, ..view },
                profile,
                key,
                InstanceViewData { tab, ..next },
                tab_out,
            )
            &&& out.handled == tab_out.handled
            &&& out.action == tab_out.action
            &&& next.tab == match tab_out.tab {
                Some(switched) => switched,
                None => view.tab,
            }
        }
}

/// What a key does on the detail view: the tab in front gets it first and
/// may switch tabs; a key that the tab leaves alone goes to the shared
/// shortcuts, of which `p` asks for the game to be started.
pub open spec fn view_step(pre: Page, key: Key, post: Page, out: Handled) -> bool {
    let view = pre.viewing->Some_0;
    let next = post.viewing->Some_0;
    let profile = pre.instances@[view.index as int];
    &&& post.loading == pre.loading
    &&& post.accounts == pre.accounts
    &&& post.instances == pre.instances
    &&& post.section == pre.section
    &&& post.creation_data == pre.creation_data
    &&& post.viewing is Some
    &&& exists|tab_out: TabOutcome|
        #![trigger tab_out.handled]
        {
            &&& tab_keyed(view, profile, key, InstanceViewData { tab: view.tab, ..next }, tab_out)
            &&& if tab_out.handled {
                &&& out.handled
                &&& out.action == tab_out.action
                &&& next.tab == match tab_out.tab {
                    Some(tab) => tab,
                    None => view.tab,
                }
            } else {
                &&& out.handled == shared_shortcut(view.tab, view.is_playing, key).0
                &&& next.tab == shared_shortcut(view.tab, view.is_playing, key).1
                &&& out.action@ == if shared_shortcut(view.tab, view.is_playing, key).2 {
                    ActionView::RunInstance { index: view.index }
                } else {
                    ActionView::Nothing
                }
            }
        }
}

/// What a tick does on the detail view.
pub open spec fn page_view_ticked(pre: Page, tick: u64, post: Page, out: Ticked) -> bool {
    &&& post.loading == pre.loading
    &&& post.accounts == pre.accounts
    &&& post.instances == pre.instances
    &&& post.section == pre.section
    &&& post.creation_data == pre.creation_data
    &&& post.viewing is Some
    &&& view_ticked(
        pre.viewing->Some_0,
        pre.instances@[pre.viewing->Some_0.index as int],
        tick,
        post.viewing->Some_0,
        out,
    )
}

impl ViewInstanceSection {
    /// Runs one tick on the detail view.
    pub fn on_tick(data: &mut Page, tick_count: &u64) -> (out: Ticked)
        requires
            old(data).wf(),
            old(data).viewing is Some,
        ensures
            final(data).wf(),
            page_view_ticked(*old(data), *tick_count, *final(data), out),
    {
        let mut view = data.viewing.take().unwrap();
        let out = view.on_tick(&data.instances[view.index], tick_count);
        data.viewing = Some(view);
        out
    }

    /// Handles a key on the detail view.
    pub fn on_key_press(data: &mut Page, key: Key) -> (out: Handled)
        requires
            old(data).wf(),
            old(data).viewing is Some,
        ensures
            final(data).wf(),
            view_step(*old(data), key, *final(data), out),
    {
        let front = match &data.viewing {
            Some(view) => view.tab,
            None => InstanceTab::Mods,
        };
        let inner = match front {
            InstanceTab::Mods => ModDisplayBody::on_key_press(data, key),
            InstanceTab::Search => SearchDisplayBody::on_key_press(data, key),
            InstanceTab::Options => OptionsDisplayBody::on_key_press(data, key),
            InstanceTab::Logs => LogsDisplayBody::on_key_press(data, key),
        };
        if inner.handled {
            return inner;
        }
        let mut view = data.viewing.take().unwrap();
        let out = if key == Key::Esc && view.tab != InstanceTab::Mods {
            view.tab = InstanceTab::Mods;
            Handled { handled: true, action: Action::Nothing }
        } else if key.letter('p', 'P') && !view.is_playing {
            Handled { handled: true, action: Action::RunInstance { index: view.index } }
        } else if key.letter('o', 'O') {
            view.tab = InstanceTab::Options;
            Handled { handled: true, action: Action::Nothing }
        } else {
            Handled { handled: false, action: Action::Nothing }
        };
        data.viewing = Some(view);
        out
    }
}

} // verus!
