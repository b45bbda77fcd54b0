//! How a file of a profile is named on screen.

use vstd::prelude::*;
use vstd::string::*;
use crate::model::{ProfileFile, ProjectType};
use crate::strings::chars_of;

verus! {

/// Whether `text` ends with `suffix`.
pub open spec fn ends_with(text: Seq<char>, suffix: Seq<char>) -> bool {
    suffix.len() <= text.len() && text.subrange(text.len() - suffix.len(), text.len() as int)
        == suffix
}

/// Whether `text` starts with `prefix`.
pub open spec fn starts_with(text: Seq<char>, prefix: Seq<char>) -> bool {
    prefix.len() <= text.len() && text.subrange(0, prefix.len() as int) == prefix
}

/// `text` without `suffix` at its end; `text` itself where it does not end
/// with it.
pub open spec fn without_suffix(text: Seq<char>, suffix: Seq<char>) -> Seq<char> {
    if ends_with(text, suffix) {
        text.subrange(0, text.len() - suffix.len())
    } else {
        text
    }
}

/// `text` without `prefix` at its start; `text` itself where it does not
/// start with it.
pub open spec fn without_prefix(text: Seq<char>, prefix: Seq<char>) -> Seq<char> {
    if starts_with(text, prefix) {
        text.subrange(prefix.len() as int, text.len() as int)
    } else {
        text
    }
}

/// Whether `part` stands in `text` from place `at` on.
fn stands_at(text: &Vec<char>, part: &Vec<char>, at: usize) -> (hit: bool)
    requires
        at + part@.len() <= text@.len(),
    ensures
        hit == (text@.subrange(at as int, at + part@.len()) == part@),
{
    let size: usize = text.len();
    let mut j: usize = 0;
    while j < part.len()
        invariant
            j <= part@.len(),
            size == text@.len(),
            at + part@.len() <= size,
            forall|k: int| 0 <= k < j ==> text@[at + k] == part@[k],
        decreases part@.len() - j,
    {
        if text[at + j] != part[j] {
            return false;
        }
        j += 1;
    }
    proof {
        assert(text@.subrange(at as int, at + part@.len()) =~= part@);
    }
    true
}

/// Executable form of [`ends_with`].
pub fn has_suffix(text: &str, suffix: &str) -> (hit: bool)
    ensures
        hit == ends_with(text@, suffix@),
{
    let whole = chars_of(text);
    let part = chars_of(suffix);
    if part.len() > whole.len() {
        return false;
    }
    stands_at(&whole, &part, whole.len() - part.len())
}

/// `text` without `suffix` at its end.
pub fn strip<'a>(text: &'a str, suffix: &'a str) -> (rest: &'a str)
    ensures
        rest@ == without_suffix(text@, suffix@),
{
    let whole = chars_of(text);
    let part = chars_of(suffix);
    if part.len() <= whole.len() && stands_at(&whole, &part, whole.len() - part.len()) {
        text.substring_char(0, whole.len() - part.len())
    } else {
        text
    }
}

/// `text` without `prefix` at its start.
pub fn strip_prefix<'a>(text: &'a str, prefix: &'a str) -> (rest: &'a str)
    ensures
        rest@ == without_prefix(text@, prefix@),
{
    let whole = chars_of(text);
    let part = chars_of(prefix);
    if part.len() <= whole.len() && stands_at(&whole, &part, 0) {
        text.substring_char(part.len(), whole.len())
    } else {
        text
    }
}

/// The mark at the end of the name of a disabled file.
pub open spec fn disabled_mark() -> Seq<char> {
    ".disabled"@
}

/// The ending of an archive's name.
pub open spec fn archive_mark() -> Seq<char> {
    ".jar"@
}

/// What the file list shows of a file.
pub trait ProfileFileExt {
    /// Whether the file is disabled: its name ends with the mark.
    spec fn disabled(&self) -> bool;

    /// The name without the mark of a disabled file, and without the ending
    /// of an archive that then stands last.
    spec fn display_name(&self) -> Seq<char>;

    /// The kind of the file, in one word.
    spec fn display_type(&self) -> Seq<char>;

    fn is_disabled(&self) -> (hit: bool)
        ensures
            hit == self.disabled(),
    ;

    fn get_display_name(&self) -> (name: String)
        ensures
            name@ == self.display_name(),
    ;

    fn get_display_type(&self) -> (kind: String)
        ensures
            kind@ == self.display_type(),
    ;
}

impl ProfileFileExt for ProfileFile {
    open spec fn disabled(&self) -> bool {
        ends_with(self.file_name@, disabled_mark())
    }

    open spec fn display_name(&self) -> Seq<char> {
        without_suffix(without_suffix(self.file_name@, disabled_mark()), archive_mark())
    }

    open spec fn display_type(&self) -> Seq<char> {
        match self.project_type {
            ProjectType::Mod => "Mod"@,
            ProjectType::DataPack => "Datapack"@,
            ProjectType::ResourcePack => "Resourcepack"@,
            ProjectType::ShaderPack => "Shaderpack"@,
        }
    }

    fn is_disabled(&self) -> (hit: bool) {
        has_suffix(self.file_name.as_str(), ".disabled")
    }

    fn get_display_name(&self) -> (name: String) {
        String::from_str(strip(strip(self.file_name.as_str(), ".disabled"), ".jar"))
    }

    fn get_display_type(&self) -> (kind: String) {
        match self.project_type {
            ProjectType::Mod => String::from_str("Mod"),
            ProjectType::DataPack => String::from_str("Datapack"),
            ProjectType::ResourcePack => String::from_str("Resourcepack"),
            ProjectType::ShaderPack => String::from_str("Shaderpack"),
        }
    }
}

} // verus!
