//! The navigation state and what its handlers ask of the caller.

use vstd::prelude::*;
use vstd::string::*;
use crate::keys::Key;
use crate::model::{Credentials, MemorySettings, ModLoader, Profile, ProfileFile};
use crate::pages::creating::{GameVersion, InstanceCreationData};
use crate::pages::creating::{creation_step, is_empty_form, InstanceCreationSection};
use crate::pages::installing::{installing_step, InstanceInstallingSection};
use crate::pages::instances::{instances_step, InstancesSection};
use crate::pages::view::{
    page_view_ticked, view_step, InstanceViewData, Ticked, ViewInstanceSection,
};
use crate::bridge::PendingTask;
use crate::files::{files_of, is_listing, sorted_by_name};
use crate::model::SearchEntry;
use crate::pages::logs::logs_open_on;
use crate::pages::mods::{installed_of, mods_open_on, pair_texts, ModDisplayData};

verus! {

/// The top level of the navigation.
#[derive(Clone, Copy, Debug, PartialEq, Eq, Structural)]
pub enum Section {
    /// No section: the keyboard picks one.
    Nothing,
    Accounts,
    Instances,
    InstanceCreation,
    InstanceInstalling,
    InstanceViewing,
}

/// The tab of an instance that owns keyboard and screen.
#[derive(Clone, Copy, Debug, PartialEq, Eq, Structural)]
pub enum InstanceTab {
    Mods,
    Search,
    Options,
    Logs,
}

/// Whether a key went down, is held, or came up.
#[derive(Clone, Copy, Debug, PartialEq, Eq, Structural)]
pub enum KeyEventKind {
    Press,
    Repeat,
    Release,
}

/// One event of the keyboard.
#[derive(Clone, Copy, Debug, PartialEq, Eq, Structural)]
pub struct KeyEvent {
    pub code: Key,
    pub kind: KeyEventKind,
    /// Whether the control key was held.
    pub control: bool,
}

/// Work outside the session that a handler asks the caller to do. The caller
/// does it and reports back through the method that the variant names.
#[derive(Clone, Debug, PartialEq, Eq)]
pub enum Action {
    /// Nothing to do.
    Nothing,
    /// Fetch accounts, instances and game versions, for `Page::load`.
    Reload,
    /// Start the creation of an instance, for `Page::install_finished`.
    CreateInstance { name: String, version: String, loader: ModLoader },
    /// Fetch log and files of the instance, for `Page::instance_loaded`.
    LoadInstance { index: usize },
    /// Launch the instance, for `Page::playing_observed`.
    RunInstance { index: usize },
    /// Store the edited settings, for `Page::instance_edited`.
    EditInstance {
        index: usize,
        name: String,
        memory: Option<MemorySettings>,
        fullscreen: Option<bool>,
    },
    /// Delete the instance, for `Page::instance_deleted`.
    DeleteInstance { index: usize },
    /// Show the folder of the instance in the file manager.
    OpenFolder { index: usize },
    /// Enable or disable the file at `path`, for `Page::mod_toggled`.
    ToggleMod { index: usize, path: String, hash: String },
    /// Remove the file at `path`, for `Page::mod_removed`.
    RemoveMod { index: usize, path: String, hash: String },
    /// Install the project, then fetch the files, for `Page::files_loaded`.
    InstallProject { index: usize, project_id: String },
    /// Send the query to the search service, for `Page::search_arrived`.
    Search { query: String },
}

/// An [`Action`] with texts in place of strings.
pub enum ActionView {
    Nothing,
    Reload,
    CreateInstance { name: Seq<char>, version: Seq<char>, loader: ModLoader },
    LoadInstance { index: usize },
    RunInstance { index: usize },
    EditInstance {
        index: usize,
        name: Seq<char>,
        memory: Option<MemorySettings>,
        fullscreen: Option<bool>,
    },
    DeleteInstance { index: usize },
    OpenFolder { index: usize },
    ToggleMod { index: usize, path: Seq<char>, hash: Seq<char> },
    RemoveMod { index: usize, path: Seq<char>, hash: Seq<char> },
    InstallProject { index: usize, project_id: Seq<char> },
    Search { query: Seq<char> },
}

impl View for Action {
    type V = ActionView;

    open spec fn view(&self) -> ActionView {
        match *self {
            Action::Nothing => ActionView::Nothing,
            Action::Reload => ActionView::Reload,
            Action::CreateInstance { name, version, loader } => ActionView::CreateInstance {
                name: name@,
                version: version@,
                loader,
            },
            Action::LoadInstance { index } => ActionView::LoadInstance { index },
            Action::RunInstance { index } => ActionView::RunInstance { index },
            Action::EditInstance { index, name, memory, fullscreen } => ActionView::EditInstance {
                index,
                name: name@,
                memory,
                fullscreen,
            },
            Action::DeleteInstance { index } => ActionView::DeleteInstance { index },
            Action::OpenFolder { index } => ActionView::OpenFolder { index },
            Action::ToggleMod { index, path, hash } => ActionView::ToggleMod {
                index,
                path: path@,
                hash: hash@,
            },
            Action::RemoveMod { index, path, hash } => ActionView::RemoveMod {
                index,
                path: path@,
                hash: hash@,
            },
            Action::InstallProject { index, project_id } => ActionView::InstallProject {
                index,
                project_id: project_id@,
            },
            Action::Search { query } => ActionView::Search { query: query@ },
        }
    }
}

/// What a section's handler answers: whether it consumed the key, and what
/// it asks the caller to do.
#[derive(Clone, Debug, PartialEq, Eq)]
pub struct Handled {
    pub handled: bool,
    pub action: Action,
}

/// What a tab's handler answers: whether it consumed the key, the tab to
/// switch to, if any, and what it asks the caller to do.
#[derive(Clone, Debug, PartialEq, Eq)]
pub struct TabOutcome {
    pub handled: bool,
    pub tab: Option<InstanceTab>,
    pub action: Action,
}

impl TabOutcome {
    /// The key was not consumed.
    pub fn ignored() -> (out: Self)
        ensures
            !out.handled,
            out.tab is None,
            out.action@ == ActionView::Nothing,
    {
        TabOutcome { handled: false, tab: None, action: Action::Nothing }
    }

    /// The key was consumed, and nothing more is asked.
    pub fn consumed() -> (out: Self)
        ensures
            out.handled,
            out.tab is None,
            out.action@ == ActionView::Nothing,
    {
        TabOutcome { handled: true, tab: None, action: Action::Nothing }
    }

    /// The key was consumed, and `action` is asked.
    pub fn asking(action: Action) -> (out: Self)
        ensures
            out.handled,
            out.tab is None,
            out.action == action,
    {
        TabOutcome { handled: true, tab: None, action }
    }

    /// The key was consumed; the tab `tab` takes over.
    pub fn switching(tab: InstanceTab) -> (out: Self)
        ensures
            out.handled,
            out.tab == Some(tab),
            out.action@ == ActionView::Nothing,
    {
        TabOutcome { handled: true, tab: Some(tab), action: Action::Nothing }
    }
}

/// The text of an optional string.
pub open spec fn text_of(s: Option<String>) -> Option<Seq<char>> {
    match s {
        Some(inner) => Some(inner@),
        None => None,
    }
}

/// The navigation state with the data that the screens show.
pub struct Page {
    /// Whether the first load is still to come.
    pub loading: bool,
    pub accounts: Vec<Credentials>,
    pub instances: Vec<Profile>,
    /// The detail view that was opened last.
    pub viewing: Option<InstanceViewData>,
    pub section: Section,
    pub creation_data: InstanceCreationData,
}

impl Page {
    /// The form and the detail view are well-formed, the detail view is of
    /// an instance that exists, and the viewing section has a view to show.
    pub open spec fn wf(&self) -> bool {
        &&& self.creation_data.wf()
        &&& match self.viewing {
            Some(view) => view.index < self.instances@.len() && view.wf(),
            None => true,
        }
        &&& self.section == Section::InstanceViewing ==> self.viewing is Some
    }

    /// The state at the start of a session: no section, nothing loaded.
    pub fn new() -> (page: Self)
        ensures
            page.wf(),
            page.loading,
            page.accounts@.len() == 0,
            page.instances@.len() == 0,
            page.viewing is None,
            page.section == Section::Nothing,
            is_empty_form(page.creation_data),
    {
        Self {
            loading: true,
            accounts: Vec::new(),
            instances: Vec::new(),
            viewing: None,
            section: Section::Nothing,
            creation_data: InstanceCreationData::new(),
        }
    }

    /// Takes in what the backend holds. Accounts or instances that could not
    /// be had leave the cached ones in place. A detail view of an instance
    /// that the new list no longer reaches is closed, and with it the
    /// viewing section.
    pub fn load(
        &mut self,
        accounts: Option<Vec<Credentials>>,
        instances: Option<Vec<Profile>>,
        versions: Option<Vec<GameVersion>>,
    )
        requires
            old(self).wf(),
        ensures
            final(self).wf(),
            !final(self).loading,
            final(self).accounts == match accounts {
                Some(list) => list,
                None => old(self).accounts,
            },
            final(self).instances == match instances {
                Some(list) => list,
                None => old(self).instances,
            },
            final(self).viewing == if old(self).viewing is Some && old(self).viewing->Some_0.index
                < final(self).instances@.len() {
                old(self).viewing
            } else {
                None
            },
            final(self).section == if old(self).section == Section::InstanceViewing
                && final(self).viewing is None {
                Section::Nothing
            } else {
                old(self).section
            },
            final(self).creation_data.game_version.index() is None,
            final(self).creation_data.game_version.options().map_values(|s: String| s@)
                == match versions {
                Some(list) => crate::pages::creating::release_names(list@),
                None => Seq::<Seq<char>>::empty(),
            },
            final(self).creation_data.name == old(self).creation_data.name,
            final(self).creation_data.loader == old(self).creation_data.loader,
            final(self).creation_data.input == old(self).creation_data.input,
            final(self).creation_data.installer == old(self).creation_data.installer,
    {
        match accounts {
            Some(list) => {
                self.accounts = list;
            },
            None => {},
        }
        match instances {
            Some(list) => {
                self.instances = list;
            },
            None => {},
        }
        let count: usize = self.instances.len();
        let stale: bool = match &self.viewing {
            Some(view) => view.index >= count,
            None => false,
        };
        if stale {
            self.viewing = None;
            if self.section == Section::InstanceViewing {
                self.section = Section::Nothing;
            }
        }
        self.creation_data.load(versions);
        self.loading = false;
    }
}

/// What the handler of the section in front does with a key.
pub open spec fn section_step(pre: Page, key: Key, post: Page, out: Handled) -> bool {
    match pre.section {
        Section::Instances => instances_step(pre, key, post, out),
        Section::InstanceCreation => creation_step(pre, key, post, out),
        Section::InstanceInstalling => installing_step(pre, key, post, out),
        Section::InstanceViewing => view_step(pre, key, post, out),
        Section::Nothing | Section::Accounts => !out.handled && out.action@ == ActionView::Nothing
            && post == pre,
    }
}

/// The section that a key picks where none is in front.
pub open spec fn picked_section(key: Key) -> Section {
    if key.is_letter('a', 'A') {
        Section::Accounts
    } else if key.is_letter('i', 'I') {
        Section::Instances
    } else {
        Section::Nothing
    }
}

/// What a key event does to the navigation. Only presses act. Where no
/// section is in front, the key picks one. Else the section's handler gets
/// the key first; a key that it leaves alone, if it is Escape, leads back to
/// no section, and is not consumed otherwise.
pub open spec fn page_step(pre: Page, event: KeyEvent, post: Page, out: Handled) -> bool {
    if event.kind != KeyEventKind::Press {
        !out.handled && out.action@ == ActionView::Nothing && post == pre
    } else if pre.section == Section::Nothing {
        &&& out.handled == (picked_section(event.code) != Section::Nothing)
        &&& out.action@ == ActionView::Nothing
        &&& post == Page { section: picked_section(event.code), ..pre }
    } else {
        exists|inner: Handled|
            #![trigger inner.handled]
            {
                &&& section_step(
                    pre,
                    event.code,
                    Page {
                        section: if inner.handled {
                            post.section
                        } else {
                            pre.section
                        },
                        ..post
                    },
                    inner,
                )
                &&& if inner.handled {
                    out.handled && out.action == inner.action
                } else {
                    &&& out.handled == (event.code == Key::Esc)
                    &&& out.action@ == ActionView::Nothing
                    &&& post.section == if event.code == Key::Esc {
                        Section::Nothing
                    } else {
                        pre.section
                    }
                }
            }
    }
}

/// What a tick does to the navigation: it reaches the detail view, and only
/// while that is in front.
pub open spec fn page_ticked(pre: Page, tick: u64, post: Page, out: Ticked) -> bool {
    if pre.section == Section::InstanceViewing {
        page_view_ticked(pre, tick, post, out)
    } else {
        !out.poll_playing && out.action@ == ActionView::Nothing && post == pre
    }
}

impl Page {
    /// Runs one tick.
    pub fn tick(&mut self, tick_count: &u64) -> (out: Ticked)
        requires
            old(self).wf(),
        ensures
            final(self).wf(),
            page_ticked(*old(self), *tick_count, *final(self), out),
    {
        match self.section {
            Section::InstanceViewing => ViewInstanceSection::on_tick(self, tick_count),
            _ => Ticked { poll_playing: false, action: Action::Nothing },
        }
    }

    /// Routes one key event: to the section in front, then to the rule that
    /// Escape leads back.
    pub fn handle(&mut self, event: KeyEvent) -> (out: Handled)
        requires
            old(self).wf(),
        ensures
            final(self).wf(),
            page_step(*old(self), event, *final(self), out),
    {
        if event.kind != KeyEventKind::Press {
            return Handled { handled: false, action: Action::Nothing };
        }
        let code = event.code;
        let inner = match self.section {
            Section::Instances => InstancesSection::on_key_press(self, code),
            Section::InstanceCreation => InstanceCreationSection::on_key_press(self, code),
            Section::InstanceInstalling => InstanceInstallingSection::on_key_press(self, code),
            Section::InstanceViewing => ViewInstanceSection::on_key_press(self, code),
            Section::Nothing => {
                if code.letter('a', 'A') {
                    self.section = Section::Accounts;
                } else if code.letter('i', 'I') {
                    self.section = Section::Instances;
                } else {
                    return Handled { handled: false, action: Action::Nothing };
                }
                return Handled { handled: true, action: Action::Nothing };
            },
            Section::Accounts => Handled { handled: false, action: Action::Nothing },
        };
        let out = if inner.handled {
            inner
        } else if code == Key::Esc && self.section != Section::Nothing {
            self.section = Section::Nothing;
            Handled { handled: true, action: Action::Nothing }
        } else {
            Handled { handled: false, action: Action::Nothing }
        };
        out
    }
}

/// `pre` with the detail view `view` in place of its own.
pub open spec fn with_view(pre: Page, view: InstanceViewData) -> Page {
    Page { viewing: Some(view), ..pre }
}

impl Page {
    /// Takes in that the installation which the form started has ended with
    /// `result`. The result waits in the slot for the acknowledge key. Where
    /// no installation runs, the result is handed back and nothing changes.
    pub fn install_finished(&mut self, result: Result<String, String>) -> (rejected: Option<
        Result<String, String>,
    >)
        requires
            old(self).wf(),
        ensures
            final(self).wf(),
            final(self).loading == old(self).loading,
            final(self).accounts == old(self).accounts,
            final(self).instances == old(self).instances,
            final(self).viewing == old(self).viewing,
            final(self).section == old(self).section,
            final(self).creation_data.name == old(self).creation_data.name,
            final(self).creation_data.loader == old(self).creation_data.loader,
            final(self).creation_data.game_version == old(self).creation_data.game_version,
            final(self).creation_data.input == old(self).creation_data.input,
            old(self).creation_data.installer.task == Some(
                PendingTask::<Result<String, String>>::Running,
            ) ==> rejected is None && final(self).creation_data.installer.task == Some(
                PendingTask::Finished(result),
            ),
            old(self).creation_data.installer.task != Some(
                PendingTask::<Result<String, String>>::Running,
            ) ==> rejected == Some(result)
                && final(self).creation_data.installer == old(self).creation_data.installer,
    {
        self.creation_data.installer.complete(result)
    }

    /// Takes in log and files of the instance whose detail view is open.
    /// Without a detail view nothing changes.
    pub fn instance_loaded(
        &mut self,
        log: Option<String>,
        files: Result<Vec<(String, ProfileFile)>, String>,
    )
        requires
            old(self).wf(),
        ensures
            final(self).wf(),
            old(self).viewing is None ==> *final(self) == *old(self),
            old(self).viewing is Some ==> {
                let view = old(self).viewing->Some_0;
                let next = final(self).viewing->Some_0;
                &&& final(self).viewing is Some
                &&& *final(self) == with_view(*old(self), next)
                &&& next.index == view.index
                &&& next.is_playing == view.is_playing
                &&& next.tab == view.tab
                &&& next.options == view.options
                &&& next.search == view.search
                &&& logs_open_on(next.logs, log)
                &&& mods_open_on(next.mods, files)
            },
    {
        match self.viewing.take() {
            Some(view) => {
                let mut view = view;
                view.loaded(log, files);
                self.viewing = Some(view);
            },
            None => {},
        }
    }

    /// Takes in the files of the instance whose detail view is open, as
    /// they are after an installation: the files tab starts afresh. Without
    /// a detail view nothing changes.
    pub fn files_loaded(&mut self, files: Result<Vec<(String, ProfileFile)>, String>)
        requires
            old(self).wf(),
        ensures
            final(self).wf(),
            old(self).viewing is None ==> *final(self) == *old(self),
            old(self).viewing is Some ==> {
                let view = old(self).viewing->Some_0;
                let next = final(self).viewing->Some_0;
                &&& final(self).viewing is Some
                &&& *final(self) == with_view(*old(self), next)
                &&& next == InstanceViewData { mods: next.mods, ..view }
                &&& mods_open_on(next.mods, files)
            },
    {
        match self.viewing.take() {
            Some(view) => {
                let mut view = view;
                view.mods = ModDisplayData::new(files);
                self.viewing = Some(view);
            },
            None => {},
        }
    }

    /// Takes in whether the game of the viewed instance is running: after a
    /// launch, whether it succeeded; after a poll, what was observed.
    /// Without a detail view nothing changes.
    pub fn playing_observed(&mut self, playing: bool)
        requires
            old(self).wf(),
        ensures
            final(self).wf(),
            old(self).viewing is None ==> *final(self) == *old(self),
            old(self).viewing is Some ==> *final(self) == with_view(
                *old(self),
                InstanceViewData { is_playing: playing, ..old(self).viewing->Some_0 },
            ),
    {
        match self.viewing.take() {
            Some(view) => {
                let mut view = view;
                view.is_playing = playing;
                self.viewing = Some(view);
            },
            None => {},
        }
    }

    /// Takes in that the backend has stored the settings of the instance at
    /// `index`: the cached instance takes them over. An index that names no
    /// instance changes nothing.
    pub fn instance_edited(
        &mut self,
        index: usize,
        name: String,
        memory: Option<MemorySettings>,
        fullscreen: Option<bool>,
    )
        requires
            old(self).wf(),
        ensures
            final(self).wf(),
            final(self).loading == old(self).loading,
            final(self).accounts == old(self).accounts,
            final(self).viewing == old(self).viewing,
            final(self).section == old(self).section,
            final(self).creation_data == old(self).creation_data,
            index >= old(self).instances@.len() ==> final(self).instances == old(self).instances,
            index < old(self).instances@.len() ==> final(self).instances@ == old(self).instances@.update(
                index as int,
                Profile {
                    name,
                    memory,
                    force_fullscreen: fullscreen,
                    ..old(self).instances@[index as int]
                },
            ),
    {
        if index < self.instances.len() {
            let current = self.instances[index].duplicate();
            let edited = Profile { name, memory, force_fullscreen: fullscreen, ..current };
            self.instances.set(index, edited);
        }
    }

    /// Takes in how the deletion of the viewed instance went. Deleted, the
    /// instance leaves the list, the detail view closes and no section is in
    /// front. Not deleted, the deletion stays pending for another try.
    /// Without a detail view nothing changes.
    pub fn instance_deleted(&mut self, deleted: bool)
        requires
            old(self).wf(),
        ensures
            final(self).wf(),
            final(self).loading == old(self).loading,
            final(self).accounts == old(self).accounts,
            final(self).creation_data == old(self).creation_data,
            old(self).viewing is None ==> *final(self) == *old(self),
            old(self).viewing is Some && deleted ==> {
                &&& final(self).viewing is None
                &&& final(self).section == Section::Nothing
                &&& final(self).instances@ == old(self).instances@.remove(
                    old(self).viewing->Some_0.index as int,
                )
            },
            old(self).viewing is Some && !deleted ==> {
                let view = old(self).viewing->Some_0;
                let next = final(self).viewing->Some_0;
                &&& final(self).viewing is Some
                &&& final(self).section == old(self).section
                &&& final(self).instances == old(self).instances
                &&& next.options.deleting
                &&& next == InstanceViewData {
                    options: crate::pages::options::OptionsDisplayData {
                        deleting: true,
                        ..view.options
                    },
                    ..view
                }
            },
    {
        match self.viewing.take() {
            Some(view) => {
                let mut view = view;
                if deleted {
                    let _ = self.instances.remove(view.index);
                    self.section = Section::Nothing;
                } else {
                    view.options.deleting = true;
                    self.viewing = Some(view);
                }
            },
            None => {},
        }
    }

    /// Takes in that the backend has enabled or disabled the file at
    /// `old_path` of the viewed instance, which now stands at `new_path`.
    /// Without a detail view, or without files, nothing changes.
    pub fn mod_toggled(&mut self, old_path: &str, new_path: String)
        requires
            old(self).wf(),
        ensures
            final(self).wf(),
            old(self).viewing is None ==> *final(self) == *old(self),
            old(self).viewing is Some ==> {
                let view = old(self).viewing->Some_0;
                let next = final(self).viewing->Some_0;
                &&& final(self).viewing is Some
                &&& *final(self) == with_view(*old(self), next)
                &&& next == InstanceViewData { mods: next.mods, ..view }
                &&& view.mods.files is Err ==> next.mods == view.mods
                &&& view.mods.files is Ok ==> crate::pages::mods::mods_toggled(
                    view.mods,
                    old_path@,
                    new_path@,
                    next.mods,
                )
            },
    {
        match self.viewing.take() {
            Some(view) => {
                let mut view = view;
                if view.mods.files.is_ok() {
                    view.mods.toggled(old_path, new_path);
                }
                self.viewing = Some(view);
            },
            None => {},
        }
    }

    /// Takes in that the backend has removed the file at `path` of the
    /// viewed instance. Without a detail view, or without files, nothing
    /// changes.
    pub fn mod_removed(&mut self, path: &str)
        requires
            old(self).wf(),
        ensures
            final(self).wf(),
            old(self).viewing is None ==> *final(self) == *old(self),
            old(self).viewing is Some ==> {
                let view = old(self).viewing->Some_0;
                let next = final(self).viewing->Some_0;
                &&& final(self).viewing is Some
                &&& *final(self) == with_view(*old(self), next)
                &&& next == InstanceViewData { mods: next.mods, ..view }
                &&& view.mods.files is Err ==> next.mods == view.mods
                &&& view.mods.files is Ok ==> crate::pages::mods::mods_removed(
                    view.mods,
                    path@,
                    next.mods,
                )
            },
    {
        match self.viewing.take() {
            Some(view) => {
                let mut view = view;
                if view.mods.files.is_ok() {
                    view.mods.removed(path);
                }
                self.viewing = Some(view);
            },
            None => {},
        }
    }

    /// Takes in the answer to a search: the hits of one page, the offset of
    /// its first hit and the number of hits in all. Without a detail view
    /// nothing changes.
    pub fn search_arrived(&mut self, hits: Vec<SearchEntry>, offset: u32, total_hits: u32)
        requires
            old(self).wf(),
        ensures
            final(self).wf(),
            old(self).viewing is None ==> *final(self) == *old(self),
            old(self).viewing is Some ==> {
                let view = old(self).viewing->Some_0;
                let next = final(self).viewing->Some_0;
                &&& final(self).viewing is Some
                &&& *final(self) == with_view(*old(self), next)
                &&& next == InstanceViewData { search: next.search, ..view }
                &&& next.search.input == view.search.input
                &&& next.search.search == view.search.search
                &&& next.search.results.index is None
                &&& next.search.results.results == hits
                &&& next.search.results.page == offset / 10
                &&& next.search.results.total == total_hits
                &&& next.search.results.installed == view.search.results.installed
                &&& next.search.results.last_facets == view.search.results.last_facets
                &&& next.search.results.last_query == view.search.results.last_query
            },
    {
        match self.viewing.take() {
            Some(view) => {
                let mut view = view;
                view.search.results.results_arrived(hits, offset, total_hits);
                self.viewing = Some(view);
            },
            None => {},
        }
    }

    /// Tells the search tab what is installed, from the files of the viewed
    /// instance. Without a detail view, or without files, nothing changes.
    pub fn refresh_installed(&mut self)
        requires
            old(self).wf(),
        ensures
            final(self).wf(),
            old(self).viewing is None ==> *final(self) == *old(self),
            old(self).viewing is Some ==> {
                let view = old(self).viewing->Some_0;
                let next = final(self).viewing->Some_0;
                &&& final(self).viewing is Some
                &&& *final(self) == with_view(*old(self), next)
                &&& next == InstanceViewData { search: next.search, ..view }
                &&& next.search.input == view.search.input
                &&& next.search.search == view.search.search
                &&& next.search.results.index == view.search.results.index
                &&& next.search.results.results == view.search.results.results
                &&& next.search.results.page == view.search.results.page
                &&& next.search.results.total == view.search.results.total
                &&& next.search.results.last_facets == view.search.results.last_facets
                &&& next.search.results.last_query == view.search.results.last_query
                &&& view.mods.files is Err ==> next.search.results.installed
                    == view.search.results.installed
                &&& view.mods.files is Ok ==> exists|listing: Seq<(String, ProfileFile)>|
                    #![trigger sorted_by_name(listing)]
                    is_listing(listing, files_of(view.mods.files->Ok_0)) && sorted_by_name(listing)
                        && pair_texts(next.search.results.installed@) == installed_of(listing)
            },
    {
        match self.viewing.take() {
            Some(view) => {
                let mut view = view;
                if view.mods.files.is_ok() {
                    let pairs = view.mods.installed();
                    view.search.results.set_installed(pairs);
                }
                self.viewing = Some(view);
            },
            None => {},
        }
    }
}

} // verus!
