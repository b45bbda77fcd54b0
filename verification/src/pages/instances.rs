//! The list of instances: picking one to view, or starting a new one.

use vstd::prelude::*;
use crate::keys::Key;
use crate::pages::page::{Action, ActionView, Handled, Page, Section};
use crate::pages::view::{opens_on, InstanceViewData};
use crate::utils::{shortcut_index, shortcut_place};

verus! {

/// The handler of the instance list.
pub struct InstancesSection();

/// The instance that `key` picks among `count`: the one whose place is the
/// key's place in the shortcut alphabet.
pub open spec fn picked(key: Key, count: nat) -> Option<usize> {
    match key {
        Key::Char(c) => match shortcut_place(c) {
            Some(place) => if place < count {
                Some(place as usize)
            } else {
                None
            },
            None => None,
        },
        _ => None,
    }
}

/// Whether `key` asks for a new instance.
pub open spec fn asks_new(key: Key) -> bool {
    key == Key::Char('+') || key == Key::Char('=')
}

/// What a key does on the instance list.
pub open spec fn instances_step(pre: Page, key: Key, post: Page, out: Handled) -> bool {
    &&& post.loading == pre.loading
    &&& post.accounts == pre.accounts
    &&& post.instances == pre.instances
    &&& post.creation_data == pre.creation_data
    &&& match picked(key, pre.instances@.len()) {
        Some(index) => {
            &&& out.handled
            &&& out.action@ == ActionView::LoadInstance { index }
            &&& post.section == Section::InstanceViewing
            &&& post.viewing is Some
            &&& opens_on(post.viewing->Some_0, index, pre.instances@[index as int])
        },
        None => {
            &&& out.action@ == ActionView::Nothing
            &&& post.viewing == pre.viewing
            &&& out.handled == asks_new(key)
            &&& post.section == if asks_new(key) {
                Section::InstanceCreation
            } else {
                pre.section
            }
        },
    }
}

impl InstancesSection {
    /// A digit or a small letter opens the instance at its place in the list,
    /// if there is one, and asks for its log and files; `+` and `=` open the
    /// creation form. Any other key is left to the caller.
    pub fn on_key_press(data: &mut Page, key: Key) -> (out: Handled)
        requires
            old(data).wf(),
        ensures
            final(data).wf(),
            instances_step(*old(data), key, *final(data), out),
    {
        match key {
            Key::Char(input) => {
                let count: usize = data.instances.len();
                let place = shortcut_index(input);
                match place {
                    Some(index) => {
                        if index < count {
                            let view = InstanceViewData::new(index, data);
                            data.viewing = Some(view);
                            data.section = Section::InstanceViewing;
                            return Handled {
                                handled: true,
                                action: Action::LoadInstance { index },
                            };
                        }
                    },
                    None => {},
                }
                if input == '+' || input == '=' {
                    data.section = Section::InstanceCreation;
                    return Handled { handled: true, action: Action::Nothing };
                }
                Handled { handled: false, action: Action::Nothing }
            },
            _ => Handled { handled: false, action: Action::Nothing },
        }
    }
}

} // verus!
