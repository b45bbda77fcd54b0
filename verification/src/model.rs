//! The data that the backend hands to the session: profiles, accounts, the
//! files of a profile and search results, as plain values.

use vstd::prelude::*;
use vstd::string::*;

verus! {

/// A copy of an optional string.
pub fn copy_text(text: &Option<String>) -> (copy: Option<String>)
    ensures
        copy == *text,
{
    match text {
        Some(inner) => Some(inner.clone()),
        None => None,
    }
}

/// The mod loader of a profile.
#[derive(Clone, Copy, Debug, PartialEq, Eq, Structural)]
pub enum ModLoader {
    Vanilla,
    Forge,
    Fabric,
    Quilt,
    NeoForge,
}

impl ModLoader {
    /// The loader's name as search facets and the backend spell it.
    pub open spec fn name(self) -> Seq<char> {
        match self {
            ModLoader::Vanilla => "vanilla"@,
            ModLoader::Forge => "forge"@,
            ModLoader::Fabric => "fabric"@,
            ModLoader::Quilt => "quilt"@,
            ModLoader::NeoForge => "neoforge"@,
        }
    }

    /// The loader's name as it is displayed.
    pub open spec fn title(self) -> Seq<char> {
        match self {
            ModLoader::Vanilla => "Vanilla"@,
            ModLoader::Forge => "Forge"@,
            ModLoader::Fabric => "Fabric"@,
            ModLoader::Quilt => "Quilt"@,
            ModLoader::NeoForge => "NeoForge"@,
        }
    }

    /// The loader's name as search facets and the backend spell it.
    pub fn as_str(&self) -> (name: &'static str)
        ensures
            name@ == self.name(),
    {
        match self {
            ModLoader::Vanilla => "vanilla",
            ModLoader::Forge => "forge",
            ModLoader::Fabric => "fabric",
            ModLoader::Quilt => "quilt",
            ModLoader::NeoForge => "neoforge",
        }
    }

    /// The loader's name as it is displayed.
    pub fn display_name(&self) -> (title: String)
        ensures
            title@ == self.title(),
    {
        match self {
            ModLoader::Vanilla => String::from_str("Vanilla"),
            ModLoader::Forge => String::from_str("Forge"),
            ModLoader::Fabric => String::from_str("Fabric"),
            ModLoader::Quilt => String::from_str("Quilt"),
            ModLoader::NeoForge => String::from_str("NeoForge"),
        }
    }
}

/// What kind of content a file of a profile is.
#[derive(Clone, Copy, Debug, PartialEq, Eq, Structural)]
pub enum ProjectType {
    Mod,
    DataPack,
    ResourcePack,
    ShaderPack,
}

impl ProjectType {
    /// The folder of a profile that holds files of this kind, with the
    /// separator that ends it.
    pub open spec fn folder(self) -> Seq<char> {
        match self {
            ProjectType::Mod => "mods/"@,
            ProjectType::DataPack => "datapacks/"@,
            ProjectType::ResourcePack => "resourcepacks/"@,
            ProjectType::ShaderPack => "shaderpacks/"@,
        }
    }

    /// The folder of a profile that holds files of this kind, with the
    /// separator that ends it.
    pub fn get_folder_with_suffix(&self) -> (folder: &'static str)
        ensures
            folder@ == self.folder(),
    {
        match self {
            ProjectType::Mod => "mods/",
            ProjectType::DataPack => "datapacks/",
            ProjectType::ResourcePack => "resourcepacks/",
            ProjectType::ShaderPack => "shaderpacks/",
        }
    }
}

/// The memory that a profile's game may take, in megabytes.
#[derive(Clone, Copy, Debug, PartialEq, Eq, Structural)]
pub struct MemorySettings {
    pub maximum: u32,
}

/// One instance of the game.
#[derive(Clone, Debug, PartialEq, Eq)]
pub struct Profile {
    pub path: String,
    pub name: String,
    pub game_version: String,
    pub loader: ModLoader,
    pub loader_version: Option<String>,
    pub memory: Option<MemorySettings>,
    pub force_fullscreen: Option<bool>,
    /// Whether the installation of the instance is complete.
    pub installed: bool,
}

impl Profile {
    /// A copy, field by field.
    pub fn duplicate(&self) -> (copy: Self)
        ensures
            copy == *self,
    {
        Self {
            path: self.path.clone(),
            name: self.name.clone(),
            game_version: self.game_version.clone(),
            loader: self.loader,
            loader_version: copy_text(&self.loader_version),
            memory: self.memory,
            force_fullscreen: self.force_fullscreen,
            installed: self.installed,
        }
    }
}

/// One signed-in account.
#[derive(Clone, Debug, PartialEq, Eq)]
pub struct Credentials {
    pub username: String,
}

/// Where an installed file came from.
#[derive(Clone, Debug, PartialEq, Eq)]
pub struct FileMetadata {
    pub project_id: String,
    pub version_id: String,
}

/// One installed file of a profile.
#[derive(Clone, Debug, PartialEq, Eq)]
pub struct ProfileFile {
    pub hash: String,
    pub file_name: String,
    pub size: u64,
    pub metadata: Option<FileMetadata>,
    pub update_version_id: Option<String>,
    pub project_type: ProjectType,
}

impl ProfileFile {
    /// A copy, field by field.
    pub fn duplicate(&self) -> (copy: Self)
        ensures
            copy == *self,
    {
        let metadata = match &self.metadata {
            Some(data) => Some(
                FileMetadata {
                    project_id: data.project_id.clone(),
                    version_id: data.version_id.clone(),
                },
            ),
            None => None,
        };
        Self {
            hash: self.hash.clone(),
            file_name: self.file_name.clone(),
            size: self.size,
            metadata,
            update_version_id: copy_text(&self.update_version_id),
            project_type: self.project_type,
        }
    }
}

/// One hit of a search.
#[derive(Clone, Debug, PartialEq, Eq)]
pub struct SearchEntry {
    pub project_id: String,
    pub title: String,
    pub author: String,
    pub description: String,
    pub downloads: u32,
    pub follows: u32,
    /// When the project was last changed, in seconds since the epoch.
    pub date_modified: i64,
}

impl SearchEntry {
    /// A copy, field by field.
    pub fn duplicate(&self) -> (copy: Self)
        ensures
            copy == *self,
    {
        Self {
            project_id: self.project_id.clone(),
            title: self.title.clone(),
            author: self.author.clone(),
            description: self.description.clone(),
            downloads: self.downloads,
            follows: self.follows,
            date_modified: self.date_modified,
        }
    }
}

} // verus!
