//! The form that creates an instance, and the wait for its installation.

use vstd::prelude::*;
use vstd::string::*;
use crate::bridge::TaskSlot;
use crate::chip::ChipState;
use crate::model::ModLoader;
use crate::cursor::moved;
use crate::keys::Key;
use crate::chip::{chip_after, is_chip_key};
use crate::pages::page::{Action, ActionView, Handled, Page, Section};
use crate::select::{list_move, SelectState};
use crate::text_input::{is_text_key, text_after_key};
use crate::bridge::PendingTask;
use crate::strings::same_text;
use crate::text_input::TextState;

verus! {

/// The field of the form that owns the keyboard.
#[derive(Clone, Copy, Debug, PartialEq, Eq, Structural)]
pub enum SelectedInput {
    /// No field: keys are shortcuts.
    Nothing,
    Name,
    Loader,
    Version,
}

/// One version of the game, as the backend tags it.
#[derive(Clone, Debug, PartialEq, Eq)]
pub struct GameVersion {
    pub version: String,
    pub version_type: String,
}

/// The loaders that the form offers, in display order.
pub open spec fn loaders() -> Seq<ModLoader> {
    seq![
        ModLoader::Vanilla,
        ModLoader::Forge,
        ModLoader::Fabric,
        ModLoader::Quilt,
        ModLoader::NeoForge,
    ]
}

/// Whether `version` is a release.
pub open spec fn is_release(version: GameVersion) -> bool {
    version.version_type@ == "release"@
}

/// The names of the releases among `versions`, in order.
pub open spec fn release_names(versions: Seq<GameVersion>) -> Seq<Seq<char>>
    decreases versions.len(),
{
    if versions.len() == 0 {
        Seq::<Seq<char>>::empty()
    } else if is_release(versions.last()) {
        release_names(versions.drop_last()).push(versions.last().version@)
    } else {
        release_names(versions.drop_last())
    }
}

/// The names of the releases among `versions`, in order.
pub fn releases(versions: &Vec<GameVersion>) -> (names: Vec<String>)
    ensures
        names@.map_values(|s: String| s@) == release_names(versions@),
{
    let mut names: Vec<String> = Vec::new();
    let ghost view = |s: String| s@;
    let mut i: usize = 0;
    while i < versions.len()
        invariant
            i <= versions@.len(),
            view == |s: String| s@,
            names@.map_values(view) == release_names(versions@.subrange(0, i as int)),
        decreases versions@.len() - i,
    {
        proof {
            let next = versions@.subrange(0, i + 1);
            assert(next.drop_last() =~= versions@.subrange(0, i as int));
        }
        if same_text(versions[i].version_type.as_str(), "release") {
            let name = versions[i].version.clone();
            names.push(name);
        }
        i += 1;
    }
    proof {
        assert(versions@.subrange(0, versions@.len() as int) =~= versions@);
    }
    names
}

/// Whether `data` is the form before anything was entered: no name, the
/// first loader, no versions to pick from, no field selected, and no
/// installation under way.
pub open spec fn is_empty_form(data: InstanceCreationData) -> bool {
    &&& data.name.text() == Seq::<char>::empty()
    &&& !data.name.blink()
    &&& data.loader.index() == Some(0usize)
    &&& data.loader.options() == loaders()
    &&& data.game_version.index() is None
    &&& data.game_version.options().len() == 0
    &&& data.input == SelectedInput::Nothing
    &&& data.installer.task is None
}

/// The state of the creation form.
pub struct InstanceCreationData {
    pub name: TextState,
    pub loader: ChipState<ModLoader>,
    pub game_version: SelectState<String>,
    pub input: SelectedInput,
    /// The installation that the form has started, if any.
    pub installer: TaskSlot<Result<String, String>>,
}

impl InstanceCreationData {
    /// The selections are valid, and a loader is always chosen.
    pub open spec fn wf(&self) -> bool {
        &&& self.loader.wf()
        &&& self.loader.options() == loaders()
        &&& self.loader.index() is Some
        &&& self.game_version.wf()
    }

    /// Whether the form may be saved: a name is given and a version chosen.
    pub open spec fn can_save(&self) -> bool {
        self.name.text().len() > 0 && self.game_version.index() is Some
    }

    /// An empty form: no name, the first loader, no versions to pick from.
    pub fn new() -> (data: Self)
        ensures
            data.wf(),
            is_empty_form(data),
    {
        let options = vec![
            ModLoader::Vanilla,
            ModLoader::Forge,
            ModLoader::Fabric,
            ModLoader::Quilt,
            ModLoader::NeoForge,
        ];
        proof {
            reveal_strlit("");
        }
        let name = TextState::new("");
        assert(name.text() =~= Seq::<char>::empty());
        Self {
            name,
            game_version: SelectState::new(None, Vec::new()),
            loader: ChipState::new(Some(0), options),
            input: SelectedInput::Nothing,
            installer: TaskSlot::new(),
        }
    }

    /// Offers the releases among `versions` for choice, none of them chosen;
    /// offers nothing where the versions could not be had.
    pub fn load(&mut self, versions: Option<Vec<GameVersion>>)
        requires
            old(self).wf(),
        ensures
            final(self).wf(),
            final(self).game_version.index() is None,
            final(self).game_version.options().map_values(|s: String| s@) == match versions {
                Some(list) => release_names(list@),
                None => Seq::<Seq<char>>::empty(),
            },
            final(self).name == old(self).name,
            final(self).loader == old(self).loader,
            final(self).input == old(self).input,
            final(self).installer == old(self).installer,
    {
        let game_versions = match &versions {
            Some(list) => releases(list),
            None => Vec::new(),
        };
        self.game_version = SelectState::new(None, game_versions);
    }
}

/// The handler of the creation form.
pub struct InstanceCreationSection();

/// The field that a shortcut of the form selects.
pub open spec fn form_field(key: Key) -> SelectedInput {
    if key.is_letter('n', 'N') {
        SelectedInput::Name
    } else if key.is_letter('m', 'M') {
        SelectedInput::Loader
    } else if key.is_letter('g', 'G') {
        SelectedInput::Version
    } else {
        SelectedInput::Nothing
    }
}

/// Whether a press of the save key is accepted: a name is given, a version is
/// chosen, and no installation is under way.
pub open spec fn save_accepted(form: InstanceCreationData) -> bool {
    form.can_save() && form.installer.task is None
}

/// What a key does on the creation form.
pub open spec fn creation_step(pre: Page, key: Key, post: Page, out: Handled) -> bool {
    let form = pre.creation_data;
    let next = post.creation_data;
    &&& post.loading == pre.loading
    &&& post.accounts == pre.accounts
    &&& post.instances == pre.instances
    &&& post.viewing == pre.viewing
    &&& next.game_version.options() == form.game_version.options()
    &&& if key == Key::Esc && form.input != SelectedInput::Nothing {
        &&& out.handled
        &&& out.action@ == ActionView::Nothing
        &&& post.section == pre.section
        &&& next.input == SelectedInput::Nothing
        &&& next.name == form.name
        &&& next.loader == form.loader
        &&& next.game_version == form.game_version
        &&& next.installer == form.installer
    } else {
        match form.input {
            SelectedInput::Name => {
                &&& out.handled == is_text_key(key)
                &&& out.action@ == ActionView::Nothing
                &&& post.section == pre.section
                &&& next.input == form.input
                &&& next.name.text() == text_after_key(form.name.text(), key)
                &&& next.name.blink() == form.name.blink()
                &&& next.loader == form.loader
                &&& next.game_version == form.game_version
                &&& next.installer == form.installer
            },
            SelectedInput::Loader => {
                &&& out.handled == is_chip_key(key)
                &&& out.action@ == ActionView::Nothing
                &&& post.section == pre.section
                &&& next.input == form.input
                &&& next.name == form.name
                &&& next.loader.index() == chip_after(form.loader.index(), 5, key)
                &&& next.game_version.index() == if is_chip_key(key) {
                    None
                } else {
                    form.game_version.index()
                }
                &&& next.installer == form.installer
            },
            SelectedInput::Version => {
                &&& out.handled == list_move(key).is_some()
                &&& out.action@ == ActionView::Nothing
                &&& post.section == pre.section
                &&& next.input == form.input
                &&& next.name == form.name
                &&& next.loader == form.loader
                &&& next.game_version.index() == match list_move(key) {
                    Some(m) => moved(
                        form.game_version.index(),
                        form.game_version.options().len(),
                        m,
                    ),
                    None => form.game_version.index(),
                }
                &&& next.installer == form.installer
            },
            SelectedInput::Nothing => {
                &&& next.name == form.name
                &&& next.loader == form.loader
                &&& if key.is_letter('s', 'S') {
                    &&& next.input == form.input
                    &&& next.game_version == form.game_version
                    &&& out.handled == save_accepted(form)
                    &&& if save_accepted(form) {
                        &&& post.section == Section::InstanceInstalling
                        &&& next.installer.task == Some(
                            PendingTask::<Result<String, String>>::Running,
                        )
                        &&& out.action@ == ActionView::CreateInstance {
                            name: form.name.text(),
                            version: form.game_version.options()[form.game_version.index()->Some_0 as int]@,
                            loader: form.loader.options()[form.loader.index()->Some_0 as int],
                        }
                    } else {
                        &&& post.section == pre.section
                        &&& next.installer == form.installer
                        &&& out.action@ == ActionView::Nothing
                    }
                } else {
                    &&& out.handled == (form_field(key) != SelectedInput::Nothing)
                    &&& out.action@ == ActionView::Nothing
                    &&& post.section == pre.section
                    &&& next.input == form_field(key)
                    &&& next.installer == form.installer
                    &&& next.game_version.index() == if form_field(key) == SelectedInput::Version
                        && form.game_version.index() is None && form.game_version.options().len()
                        > 0 {
                        Some(0usize)
                    } else {
                        form.game_version.index()
                    }
                }
            },
        }
    }
}

impl InstanceCreationSection {
    /// Escape leaves the selected field. A selected field takes the key; a
    /// change of loader unselects the version. Without a field, `n`, `m`
    /// and `g` select one, `g` also the first version where none is chosen,
    /// and `s` saves: where a name is given and a version chosen, the
    /// creation is asked for and the installing section takes over.
    pub fn on_key_press(main_data: &mut Page, key: Key) -> (out: Handled)
        requires
            old(main_data).wf(),
        ensures
            final(main_data).wf(),
            creation_step(*old(main_data), key, *final(main_data), out),
    {
        if key == Key::Esc && main_data.creation_data.input != SelectedInput::Nothing {
            main_data.creation_data.input = SelectedInput::Nothing;
            return Handled { handled: true, action: Action::Nothing };
        }
        match main_data.creation_data.input {
            SelectedInput::Name => {
                let handled = main_data.creation_data.name.on_key_press(key);
                Handled { handled, action: Action::Nothing }
            },
            SelectedInput::Loader => {
                let handled = main_data.creation_data.loader.on_key_press(key);
                if handled {
                    main_data.creation_data.game_version.set(None);
                }
                Handled { handled, action: Action::Nothing }
            },
            SelectedInput::Version => {
                let handled = main_data.creation_data.game_version.on_key_press(key);
                Handled { handled, action: Action::Nothing }
            },
            SelectedInput::Nothing => {
                if key.letter('n', 'N') {
                    main_data.creation_data.input = SelectedInput::Name;
                } else if key.letter('m', 'M') {
                    main_data.creation_data.input = SelectedInput::Loader;
                } else if key.letter('g', 'G') {
                    main_data.creation_data.input = SelectedInput::Version;
                    if main_data.creation_data.game_version.selected().is_none()
                        && main_data.creation_data.game_version.items().len() > 0 {
                        main_data.creation_data.game_version.set(Some(0));
                    }
                } else if key.letter('s', 'S') {
                    let name = main_data.creation_data.name.get();
                    let loader = main_data.creation_data.loader.get();
                    let version = main_data.creation_data.game_version.get();
                    let empty = main_data.creation_data.name.is_empty();
                    let busy = main_data.creation_data.installer.outstanding();
                    match (version, loader) {
                        (Some(version), Some(loader)) => {
                            if !empty && !busy {
                                let _ = main_data.creation_data.installer.start();
                                main_data.section = Section::InstanceInstalling;
                                return Handled {
                                    handled: true,
                                    action: Action::CreateInstance { name, version, loader },
                                };
                            }
                        },
                        _ => {},
                    }
                    return Handled { handled: false, action: Action::Nothing };
                } else {
                    return Handled { handled: false, action: Action::Nothing };
                }
                Handled { handled: true, action: Action::Nothing }
            },
        }
    }
}

} // verus!
