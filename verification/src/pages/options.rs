//! The settings tab of an instance.

use vstd::prelude::*;
use vstd::string::*;
use crate::chip::{chip_after, is_chip_key, ChipState};
use crate::keys::Key;
use crate::model::{MemorySettings, Profile};
use crate::pages::page::{Action, ActionView, Handled, InstanceTab, Page, TabOutcome};
use crate::pages::view::body_routed;
use crate::text_input::blink_phase;
use crate::text_input::{is_text_key, text_after_key, TextState};

verus! {

/// The field of the tab that owns the keyboard.
#[derive(Clone, Copy, Debug, PartialEq, Eq, Structural)]
pub enum Input {
    /// No field: keys are shortcuts.
    Nothing,
    Actions,
    Name,
    Memory,
    Fullscreen,
}

/// What the action row can do to the instance.
#[derive(Clone, Copy, Debug, PartialEq, Eq, Structural)]
pub enum ActionType {
    Delete,
    UpdateLoader,
    OpenFolder,
    Logs,
}

impl ActionType {
    /// The action's name as it is displayed.
    pub open spec fn title(self) -> Seq<char> {
        match self {
            ActionType::Delete => "Delete"@,
            ActionType::UpdateLoader => "Update Loader"@,
            ActionType::OpenFolder => "Open Folder"@,
            ActionType::Logs => "Logs"@,
        }
    }

    /// The action's name as it is displayed.
    pub fn label(&self) -> (title: String)
        ensures
            title@ == self.title(),
    {
        match self {
            ActionType::Delete => String::from_str("Delete"),
            ActionType::UpdateLoader => String::from_str("Update Loader"),
            ActionType::OpenFolder => String::from_str("Open Folder"),
            ActionType::Logs => String::from_str("Logs"),
        }
    }
}

/// The memory sizes on offer, in megabytes.
pub open spec fn memory_options() -> Seq<u32> {
    seq![2048u32, 4096u32, 6144u32, 8192u32]
}

/// The two answers to "full screen?", in display order.
pub open spec fn fullscreen_options() -> Seq<bool> {
    seq![true, false]
}

/// The actions on offer, in display order.
pub open spec fn action_options() -> Seq<ActionType> {
    seq![ActionType::Logs, ActionType::UpdateLoader, ActionType::OpenFolder, ActionType::Delete]
}

/// The memory chip that stands for a profile's setting: none where nothing is
/// set, else the setting in units of 2048 megabytes, the last chip at most.
pub open spec fn memory_index(profile: Profile) -> Option<usize> {
    match profile.memory {
        Some(memory) => Some(
            if memory.maximum / 2048 < 3 {
                (memory.maximum / 2048) as usize
            } else {
                3usize
            },
        ),
        None => None,
    }
}

/// The full-screen chip that stands for a profile's setting: none where
/// nothing is set, else the chip whose place is the setting read as a number.
pub open spec fn fullscreen_index(profile: Profile) -> Option<usize> {
    match profile.force_fullscreen {
        Some(on) => Some(if on { 1usize } else { 0usize }),
        None => None,
    }
}

/// The state of the settings tab.
pub struct OptionsDisplayData {
    pub input: Input,
    pub deleting: bool,
    pub memory: ChipState<u32>,
    pub fullscreen: ChipState<bool>,
    pub actions: ChipState<ActionType>,
    pub name: TextState,
}

impl OptionsDisplayData {
    /// The chips hold their fixed options, and their selections are valid.
    pub open spec fn wf(&self) -> bool {
        &&& self.memory.wf()
        &&& self.memory.options() == memory_options()
        &&& self.fullscreen.wf()
        &&& self.fullscreen.options() == fullscreen_options()
        &&& self.actions.wf()
        &&& self.actions.options() == action_options()
    }

    /// The tab as it opens on `profile`: no field selected, the chips set
    /// from the profile, the name field holding the profile's name.
    pub fn new(profile: &Profile) -> (data: Self)
        ensures
            data.wf(),
            data.input == Input::Nothing,
            !data.deleting,
            data.memory.index() == memory_index(*profile),
            data.fullscreen.index() == fullscreen_index(*profile),
            data.actions.index() is None,
            data.name.text() == profile.name@,
    {
        let memory_choice: Option<usize> = match profile.memory {
            Some(memory) => {
                let units: u32 = memory.maximum / 2048;
                if units < 3 {
                    Some(units as usize)
                } else {
                    Some(3)
                }
            },
            None => None,
        };
        let fullscreen_choice: Option<usize> = match profile.force_fullscreen {
            Some(on) => if on {
                Some(1)
            } else {
                Some(0)
            },
            None => None,
        };
        let sizes = vec![2048u32, 4096u32, 6144u32, 8192u32];
        let answers = vec![true, false];
        let actions = vec![
            ActionType::Logs,
            ActionType::UpdateLoader,
            ActionType::OpenFolder,
            ActionType::Delete,
        ];
        Self {
            input: Input::Nothing,
            deleting: false,
            memory: ChipState::new(memory_choice, sizes),
            fullscreen: ChipState::new(fullscreen_choice, answers),
            actions: ChipState::new(None, actions),
            name: TextState::new(profile.name.as_str()),
        }
    }

    /// The memory setting that the chips stand for.
    pub open spec fn chosen_memory(&self) -> Option<MemorySettings> {
        match self.memory.index() {
            Some(i) => Some(MemorySettings { maximum: self.memory.options()[i as int] }),
            None => None,
        }
    }

    /// The full-screen setting that the chips stand for.
    pub open spec fn chosen_fullscreen(&self) -> Option<bool> {
        match self.fullscreen.index() {
            Some(i) => Some(self.fullscreen.options()[i as int]),
            None => None,
        }
    }

    /// The action that the chips stand for.
    pub open spec fn chosen_action(&self) -> Option<ActionType> {
        match self.actions.index() {
            Some(i) => Some(self.actions.options()[i as int]),
            None => None,
        }
    }

    /// Handles a key on the settings tab of the instance at `index`.
    ///
    /// Escape leaves the selected field and asks for the settings to be
    /// stored. Without a field, `a`, `n`, `m` and `f` select one and call a
    /// pending deletion off. A selected field takes the key. On the action
    /// row Enter runs the chosen action: deletion asks for confirmation
    /// first, by a second Enter; any other consumed or unconsumed key calls
    /// the deletion off.
    pub fn handle_key(&mut self, index: usize, key: Key) -> (out: TabOutcome)
        requires
            old(self).wf(),
        ensures
            final(self).wf(),
            options_step(*old(self), index, key, *final(self), out),
    {
        if key == Key::Esc && self.input != Input::Nothing {
            let memory = match self.memory.get() {
                Some(maximum) => Some(MemorySettings { maximum }),
                None => None,
            };
            let action = Action::EditInstance {
                index,
                name: self.name.get(),
                memory,
                fullscreen: self.fullscreen.get(),
            };
            self.input = Input::Nothing;
            self.actions.set(None);
            TabOutcome::asking(action)
        } else {
            match self.input {
                Input::Nothing => {
                    if key.letter('a', 'A') {
                        self.input = Input::Actions;
                    } else if key.letter('n', 'N') {
                        self.input = Input::Name;
                    } else if key.letter('m', 'M') {
                        self.input = Input::Memory;
                    } else if key.letter('f', 'F') {
                        self.input = Input::Fullscreen;
                    } else {
                        return TabOutcome::ignored();
                    }
                    self.deleting = false;
                    TabOutcome::consumed()
                },
                Input::Name => {
                    if self.name.on_key_press(key) {
                        TabOutcome::consumed()
                    } else {
                        TabOutcome::ignored()
                    }
                },
                Input::Memory => {
                    if self.memory.on_key_press(key) {
                        TabOutcome::consumed()
                    } else {
                        TabOutcome::ignored()
                    }
                },
                Input::Fullscreen => {
                    if self.fullscreen.on_key_press(key) {
                        TabOutcome::consumed()
                    } else {
                        TabOutcome::ignored()
                    }
                },
                Input::Actions => {
                    let handled = self.actions.on_key_press(key);
                    if !handled && key == Key::Enter {
                        match self.actions.get() {
                            Some(action) => {
                                return match action {
                                    ActionType::Delete => {
                                        if self.deleting {
                                            TabOutcome::asking(Action::DeleteInstance { index })
                                        } else {
                                            self.deleting = true;
                                            TabOutcome::consumed()
                                        }
                                    },
                                    ActionType::UpdateLoader => TabOutcome::consumed(),
                                    ActionType::OpenFolder => TabOutcome::asking(
                                        Action::OpenFolder { index },
                                    ),
                                    ActionType::Logs => TabOutcome::switching(InstanceTab::Logs),
                                };
                            },
                            None => {},
                        }
                    }
                    self.deleting = false;
                    if handled {
                        TabOutcome::consumed()
                    } else {
                        TabOutcome::ignored()
                    }
                },
            }
        }
    }
}

/// The field that a shortcut selects.
pub open spec fn field_of(key: Key) -> Input {
    if key.is_letter('a', 'A') {
        Input::Actions
    } else if key.is_letter('n', 'N') {
        Input::Name
    } else if key.is_letter('m', 'M') {
        Input::Memory
    } else if key.is_letter('f', 'F') {
        Input::Fullscreen
    } else {
        Input::Nothing
    }
}

/// What a key does on the settings tab of the instance at `index`.
pub open spec fn options_step(
    pre: OptionsDisplayData,
    index: usize,
    key: Key,
    post: OptionsDisplayData,
    out: TabOutcome,
) -> bool {
    if key == Key::Esc && pre.input != Input::Nothing {
        &&& out.handled
        &&& out.tab is None
        &&& out.action@ == ActionView::EditInstance {
            index,
            name: pre.name.text(),
            memory: pre.chosen_memory(),
            fullscreen: pre.chosen_fullscreen(),
        }
        &&& post.input == Input::Nothing
        &&& post.actions.index() is None
        &&& post.deleting == pre.deleting
        &&& post.name == pre.name
        &&& post.memory == pre.memory
        &&& post.fullscreen == pre.fullscreen
    } else {
        match pre.input {
            Input::Nothing => {
                &&& out.handled == (field_of(key) != Input::Nothing)
                &&& out.tab is None
                &&& out.action@ == ActionView::Nothing
                &&& post.input == field_of(key)
                &&& post.deleting == (pre.deleting && field_of(key) == Input::Nothing)
                &&& post.name == pre.name
                &&& post.memory == pre.memory
                &&& post.fullscreen == pre.fullscreen
                &&& post.actions == pre.actions
            },
            Input::Name => {
                &&& out.handled == is_text_key(key)
                &&& out.tab is None
                &&& out.action@ == ActionView::Nothing
                &&& post.input == pre.input
                &&& post.deleting == pre.deleting
                &&& post.name.text() == text_after_key(pre.name.text(), key)
                &&& post.name.blink() == pre.name.blink()
                &&& post.memory == pre.memory
                &&& post.fullscreen == pre.fullscreen
                &&& post.actions == pre.actions
            },
            Input::Memory => {
                &&& out.handled == is_chip_key(key)
                &&& out.tab is None
                &&& out.action@ == ActionView::Nothing
                &&& post.input == pre.input
                &&& post.deleting == pre.deleting
                &&& post.name == pre.name
                &&& post.memory.index() == chip_after(pre.memory.index(), 4, key)
                &&& post.fullscreen == pre.fullscreen
                &&& post.actions == pre.actions
            },
            Input::Fullscreen => {
                &&& out.handled == is_chip_key(key)
                &&& out.tab is None
                &&& out.action@ == ActionView::Nothing
                &&& post.input == pre.input
                &&& post.deleting == pre.deleting
                &&& post.name == pre.name
                &&& post.memory == pre.memory
                &&& post.fullscreen.index() == chip_after(pre.fullscreen.index(), 2, key)
                &&& post.actions == pre.actions
            },
            Input::Actions => {
                &&& post.input == pre.input
                &&& post.name == pre.name
                &&& post.memory == pre.memory
                &&& post.fullscreen == pre.fullscreen
                &&& post.actions.index() == chip_after(pre.actions.index(), 4, key)
                &&& if key == Key::Enter && pre.chosen_action() is Some {
                    &&& out.handled
                    &&& match pre.chosen_action()->Some_0 {
                        ActionType::Delete => {
                            &&& out.tab is None
                            &&& post.deleting
                            &&& out.action@ == if pre.deleting {
                                ActionView::DeleteInstance { index }
                            } else {
                                ActionView::Nothing
                            }
                        },
                        ActionType::UpdateLoader => {
                            &&& out.tab is None
                            &&& post.deleting == pre.deleting
                            &&& out.action@ == ActionView::Nothing
                        },
                        ActionType::OpenFolder => {
                            &&& out.tab is None
                            &&& post.deleting == pre.deleting
                            &&& out.action@ == ActionView::OpenFolder { index }
                        },
                        ActionType::Logs => {
                            &&& out.tab == Some(InstanceTab::Logs)
                            &&& post.deleting == pre.deleting
                            &&& out.action@ == ActionView::Nothing
                        },
                    }
                } else {
                    &&& out.handled == is_chip_key(key)
                    &&& out.tab is None
                    &&& out.action@ == ActionView::Nothing
                    &&& !post.deleting
                }
            },
        }
    }
}

/// What a tick does on the settings tab: the caret of the name field
/// advances, and nothing else changes.
pub open spec fn options_ticked(pre: OptionsDisplayData, tick: u64, post: OptionsDisplayData) -> bool {
    &&& post.name.text() == pre.name.text()
    &&& post.name.blink() == blink_phase(tick)
    &&& post.input == pre.input
    &&& post.deleting == pre.deleting
    &&& post.memory == pre.memory
    &&& post.fullscreen == pre.fullscreen
    &&& post.actions == pre.actions
}

/// The handler of the settings tab.
pub struct OptionsDisplayBody();

impl OptionsDisplayBody {
    /// Advances the caret of the name field. The instance plays no part.
    pub fn on_tick(profile: &Profile, options: &mut OptionsDisplayData, tick_count: &u64)
        requires
            old(options).wf(),
        ensures
            final(options).wf(),
            options_ticked(*old(options), *tick_count, *final(options)),
    {
        options.name.on_tick(tick_count);
    }

    /// Handles a key on the settings tab of the viewed instance.
    pub fn on_key_press(page: &mut Page, key: Key) -> (out: Handled)
        requires
            old(page).wf(),
            old(page).viewing is Some,
        ensures
            final(page).wf(),
            body_routed(*old(page), InstanceTab::Options, key, *final(page), out),
    {
        let mut view = page.viewing.take().unwrap();
        let tab_out = view.options.handle_key(view.index, key);
        match tab_out.tab {
            Some(tab) => {
                view.tab = tab;
            },
            None => {},
        }
        page.viewing = Some(view);
        Handled { handled: tab_out.handled, action: tab_out.action }
    }
}

} // verus!
