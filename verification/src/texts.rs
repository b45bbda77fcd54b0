//! The fixed texts of the interface.

use vstd::prelude::*;

verus! {

/// The fixed texts of the interface, by the place where they show.
pub struct Texts {}

impl Texts {
    pub const INSTALLING_TITLE: &'static str = "Installing Instance";

    pub const INSTALLED: &'static str = "Installed, press [C] to continue.";

    pub const INSTALLING: &'static str = "Installing...";

    pub const INSTANCES_TITLE: &'static str = "Instances";

    pub const CREATING_TITLE: &'static str = "Create Instance";

    pub const CREATING_SAVE: &'static str = "[S]ave";

    pub const CREATING_NAME: &'static str = "Name";

    pub const CREATING_LOADER: &'static str = "Mod Loader";

    pub const CREATING_VERSIONS: &'static str = "Game Version";

    pub const OPTIONS_TITLE: &'static str = "Options";

    pub const OPTIONS_FOOTER: &'static str = "Option Info";

    pub const OPTIONS_ACTIONS: &'static str = "Actions for this profile, press [↵] to run action.";

    pub const OPTIONS_NAME: &'static str = "The name of this instance.";

    pub const OPTIONS_MEMORY: &'static str = "The memory for the instance, > 4gb recommended.";

    pub const OPTIONS_FULLSCREEN: &'static str = "Weather the game should be opened in fullscreen.";
}

} // verus!
