//! The wait for an installation: a modal section that owns every key.

use vstd::prelude::*;
use crate::keys::Key;
use crate::pages::page::{Action, ActionView, Handled, Page, Section};

verus! {

/// The handler of the installing section.
pub struct InstanceInstallingSection();

/// Whether `key` acknowledges a finished installation.
pub open spec fn acknowledges(key: Key) -> bool {
    key.is_letter('c', 'C')
}

/// What a key does while an installation is awaited: every key is consumed;
/// once the installation has finished, the acknowledge key reads its result,
/// empties the slot, goes to the instance list and asks for a reload.
pub open spec fn installing_step(pre: Page, key: Key, post: Page, out: Handled) -> bool {
    &&& out.handled
    &&& post.loading == pre.loading
    &&& post.accounts == pre.accounts
    &&& post.instances == pre.instances
    &&& post.viewing == pre.viewing
    &&& post.creation_data.name == pre.creation_data.name
    &&& post.creation_data.loader == pre.creation_data.loader
    &&& post.creation_data.game_version == pre.creation_data.game_version
    &&& post.creation_data.input == pre.creation_data.input
    &&& if pre.creation_data.installer.finished() && acknowledges(key) {
        &&& post.creation_data.installer.task is None
        &&& post.section == Section::Instances
        &&& out.action@ == ActionView::Reload
    } else {
        &&& post.creation_data.installer == pre.creation_data.installer
        &&& post.section == pre.section
        &&& out.action@ == ActionView::Nothing
    }
}

impl InstanceInstallingSection {
    /// Whether the installation has finished.
    pub fn is_finished(data: &Page) -> (done: bool)
        ensures
            done == data.creation_data.installer.finished(),
    {
        data.creation_data.installer.is_finished()
    }

    /// Handles a key while an installation is awaited.
    pub fn on_key_press(data: &mut Page, key: Key) -> (out: Handled)
        requires
            old(data).wf(),
        ensures
            final(data).wf(),
            installing_step(*old(data), key, *final(data), out),
    {
        if Self::is_finished(data) && key.letter('c', 'C') {
            let _ = data.creation_data.installer.take();
            data.section = Section::Instances;
            Handled { handled: true, action: Action::Reload }
        } else {
            Handled { handled: true, action: Action::Nothing }
        }
    }
}

} // verus!
