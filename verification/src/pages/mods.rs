//! The tab that lists the installed files of an instance.

use vstd::prelude::*;
use vstd::string::*;
use dashmap::DashMap;
use crate::files::{
    distinct_names, files_from, files_insert, files_of, files_remove, hash_position, is_listing,
    lemma_hash_position, lemma_listed_path, lemma_match_is_hash_position, lemma_path_position,
    lemma_same_length, lemma_same_place, map_of, path_position, position_of_hash,
    position_of_path, sorted_by_name, sorted_entries,
};
use crate::model::copy_text;
use crate::profile_files::{strip_prefix, without_prefix};
use crate::keys::Key;
use crate::model::{ModLoader, ProfileFile};
use crate::pages::page::{text_of, Action, ActionView, Handled, InstanceTab, Page, TabOutcome};
use crate::pages::view::body_routed;
use crate::utils::{get_last, get_next, slot_after, slot_before};

verus! {

/// The state of the files tab.
pub struct ModDisplayData {
    /// The files by their path, or why they could not be had.
    pub files: Result<DashMap<String, ProfileFile>, String>,
    /// The hash of the selected file.
    pub selected_project: Option<String>,
    /// Whether a removal waits for its confirmation.
    pub deleting: bool,
}

/// The selection after a step up: the file before the selected one, the
/// first file holding; the first file where nothing, or nothing listed, was
/// selected. An empty list leaves the selection as it is.
pub open spec fn selection_above(
    listing: Seq<(String, ProfileFile)>,
    selected: Option<Seq<char>>,
) -> Option<Seq<char>> {
    if listing.len() == 0 {
        selected
    } else {
        match selected {
            Some(hash) => Some(
                listing[slot_before(hash_position(listing, hash), listing.len() as int)].1.hash@,
            ),
            None => Some(listing[0].1.hash@),
        }
    }
}

/// The selection after a step down: the file after the selected one, the
/// last file holding; the last file where something not listed was selected,
/// the first where nothing was. An empty list leaves the selection as it is.
pub open spec fn selection_below(
    listing: Seq<(String, ProfileFile)>,
    selected: Option<Seq<char>>,
) -> Option<Seq<char>> {
    if listing.len() == 0 {
        selected
    } else {
        match selected {
            Some(hash) => Some(
                listing[slot_after(hash_position(listing, hash), listing.len() as int)].1.hash@,
            ),
            None => Some(listing[0].1.hash@),
        }
    }
}

/// The place in `listing` of the selected file: the first file with the
/// selected hash, if there is one.
pub open spec fn selected_place(
    listing: Seq<(String, ProfileFile)>,
    selected: Option<Seq<char>>,
) -> Option<int> {
    match selected {
        Some(hash) => hash_position(listing, hash),
        None => None,
    }
}

/// What a key does on the files tab, given the files in display order.
pub open spec fn mods_step(
    pre: ModDisplayData,
    index: usize,
    loader: ModLoader,
    key: Key,
    listing: Seq<(String, ProfileFile)>,
    post: ModDisplayData,
    out: TabOutcome,
) -> bool {
    let selected = text_of(pre.selected_project);
    match key {
        Key::Char(c) if c == '=' || c == '+' => {
            &&& out.handled
            &&& out.tab == if loader != ModLoader::Vanilla {
                Some(InstanceTab::Search)
            } else {
                None
            }
            &&& out.action@ == ActionView::Nothing
            &&& text_of(post.selected_project) == selected
            &&& post.deleting == pre.deleting
        },
        Key::Up => {
            &&& out.handled
            &&& out.tab is None
            &&& out.action@ == ActionView::Nothing
            &&& text_of(post.selected_project) == selection_above(listing, selected)
            &&& !post.deleting
        },
        Key::Down => {
            &&& out.handled
            &&& out.tab is None
            &&& out.action@ == ActionView::Nothing
            &&& text_of(post.selected_project) == selection_below(listing, selected)
            &&& post.deleting == pre.deleting
        },
        Key::Enter => {
            &&& out.handled
            &&& out.tab is None
            &&& out.action@ == match selected_place(listing, selected) {
                Some(p) => ActionView::ToggleMod {
                    index,
                    path: listing[p].0@,
                    hash: selected->Some_0,
                },
                None => ActionView::Nothing,
            }
            &&& text_of(post.selected_project) == selected
            &&& post.deleting == pre.deleting
        },
        Key::Delete => {
            &&& out.handled
            &&& out.tab is None
            &&& if selected is None {
                &&& out.action@ == ActionView::Nothing
                &&& post.selected_project is None
                &&& post.deleting == pre.deleting
            } else if !pre.deleting {
                &&& out.action@ == ActionView::Nothing
                &&& text_of(post.selected_project) == selected
                &&& post.deleting
            } else {
                match selected_place(listing, selected) {
                    Some(p) => {
                        &&& out.action@ == ActionView::RemoveMod {
                            index,
                            path: listing[p].0@,
                            hash: selected->Some_0,
                        }
                        &&& text_of(post.selected_project) == selected
                        &&& post.deleting
                    },
                    None => {
                        &&& out.action@ == ActionView::Nothing
                        &&& post.selected_project is None
                        &&& !post.deleting
                    },
                }
            }
        },
        _ => {
            &&& !out.handled
            &&& out.tab is None
            &&& out.action@ == ActionView::Nothing
            &&& text_of(post.selected_project) == selected
            &&& post.deleting == pre.deleting
        },
    }
}

/// What a key does on the files tab of the instance at `index`, which runs
/// on `loader`. The files are never touched. Where they could not be had, no
/// key is consumed; else the key acts on the files in display order, in which
/// files of one name stand in no promised order.
pub open spec fn mods_key(
    pre: ModDisplayData,
    index: usize,
    loader: ModLoader,
    key: Key,
    post: ModDisplayData,
    out: TabOutcome,
) -> bool {
    &&& post.files == pre.files
    &&& pre.files is Err ==> {
        &&& !out.handled
        &&& out.tab is None
        &&& out.action@ == ActionView::Nothing
        &&& post.selected_project == pre.selected_project
        &&& post.deleting == pre.deleting
    }
    &&& pre.files is Ok ==> exists|listing: Seq<(String, ProfileFile)>|
        #![trigger sorted_by_name(listing)]
        is_listing(listing, files_of(pre.files->Ok_0)) && sorted_by_name(listing) && mods_step(
            pre,
            index,
            loader,
            key,
            listing,
            post,
            out,
        )
}

/// The selection that takes the place of the file at place `p` of
/// `listing`: the file before it, or the one after it where it stands
/// first, or none where it stands alone.
pub open spec fn neighbour(listing: Seq<(String, ProfileFile)>, p: int) -> Option<Seq<char>> {
    if p > 0 {
        Some(listing[p - 1].1.hash@)
    } else if listing.len() > 1 {
        Some(listing[1].1.hash@)
    } else {
        None
    }
}

/// The selection once the file at `path` is gone: where that file bore the
/// selected hash, its neighbour in display order; else the selection as it
/// was, also where no file stood at the path.
pub open spec fn selection_without(
    listing: Seq<(String, ProfileFile)>,
    selected: Option<Seq<char>>,
    path: Seq<char>,
) -> Option<Seq<char>> {
    match path_position(listing, path) {
        Some(p) => if selected == Some(listing[p].1.hash@) {
            neighbour(listing, p)
        } else {
            selected
        },
        None => selected,
    }
}

/// Whether `after` is `before` under the path `path`: the same file, named
/// by what follows the folder of its kind in the path.
pub open spec fn is_moved(before: ProfileFile, after: ProfileFile, path: Seq<char>) -> bool {
    &&& after.hash == before.hash
    &&& after.file_name@ == without_prefix(path, before.project_type.folder())
    &&& after.size == before.size
    &&& after.metadata == before.metadata
    &&& after.update_version_id == before.update_version_id
    &&& after.project_type == before.project_type
}

/// Project and version of every file of `listing` that knows where it came
/// from, in order.
pub open spec fn installed_of(listing: Seq<(String, ProfileFile)>) -> Seq<(Seq<char>, Seq<char>)>
    decreases listing.len(),
{
    if listing.len() == 0 {
        Seq::<(Seq<char>, Seq<char>)>::empty()
    } else {
        match listing.last().1.metadata {
            Some(data) => installed_of(listing.drop_last()).push(
                (data.project_id@, data.version_id@),
            ),
            None => installed_of(listing.drop_last()),
        }
    }
}

/// The texts of a list of pairs of strings.
pub open spec fn pair_texts(pairs: Seq<(String, String)>) -> Seq<(Seq<char>, Seq<char>)> {
    pairs.map_values(|pair: (String, String)| (pair.0@, pair.1@))
}

/// Whether `data` is the files tab as it opens on `files`: nothing selected,
/// no removal pending, and the files those of the list, of which a later
/// entry replaces an earlier one of the same path; or the reason why the
/// files could not be had.
pub open spec fn mods_open_on(
    data: ModDisplayData,
    files: Result<Vec<(String, ProfileFile)>, String>,
) -> bool {
    &&& data.selected_project is None
    &&& !data.deleting
    &&& match files {
        Ok(list) => data.files is Ok && files_of(data.files->Ok_0) == map_of(list@),
        Err(error) => data.files is Err && data.files->Err_0 == error,
    }
}

/// What the files tab `pre`, which has its files, becomes when the file at
/// `old_path` has moved to `new_path`: the entry leaves the old path and
/// stands under the new one, with the name that the new path gives it;
/// selection and pending removal stay. Where no file stood at the old path,
/// the files stay too.
pub open spec fn mods_toggled(
    pre: ModDisplayData,
    old_path: Seq<char>,
    new_path: Seq<char>,
    post: ModDisplayData,
) -> bool {
    let files = files_of(pre.files->Ok_0);
    &&& post.files is Ok
    &&& post.selected_project == pre.selected_project
    &&& post.deleting == pre.deleting
    &&& if files.dom().contains(old_path) {
        exists|moved: ProfileFile|
            #![trigger is_moved(files[old_path], moved, new_path)]
            is_moved(files[old_path], moved, new_path) && files_of(post.files->Ok_0)
                == files.remove(old_path).insert(new_path, moved)
    } else {
        files_of(post.files->Ok_0) == files
    }
}

/// What the files tab `pre`, which has its files, becomes when the file at
/// `path` is gone: the entry goes, and so does the pending removal; the
/// selection is what [`selection_without`] says, over the files in display
/// order.
pub open spec fn mods_removed(pre: ModDisplayData, path: Seq<char>, post: ModDisplayData) -> bool {
    &&& post.files is Ok
    &&& files_of(post.files->Ok_0) == files_of(pre.files->Ok_0).remove(path)
    &&& !post.deleting
    &&& exists|listing: Seq<(String, ProfileFile)>|
        #![trigger sorted_by_name(listing)]
        is_listing(listing, files_of(pre.files->Ok_0)) && sorted_by_name(listing) && text_of(
            post.selected_project,
        ) == selection_without(listing, text_of(pre.selected_project), path)
}

/// Deleting the selected file re-selects its neighbour. Where Delete on a
/// pending removal has asked for the file at `path` to be removed, and the
/// removal is taken in, the file is gone and every other file stays; the
/// removal is no longer pending; and in some display order of the files as
/// they were, the removed file bore the selected hash, and the selection is
/// now the file that stood before it, or the one after it where it stood
/// first, or none where it stood alone.
pub proof fn lemma_removal_reselects(
    pre: ModDisplayData,
    index: usize,
    loader: ModLoader,
    asked: ModDisplayData,
    out: TabOutcome,
    path: Seq<char>,
    hash: Seq<char>,
    post: ModDisplayData,
)
    requires
        pre.files is Ok,
        mods_key(pre, index, loader, Key::Delete, asked, out),
        out.action@ == (ActionView::RemoveMod { index, path, hash }),
        mods_removed(asked, path, post),
    ensures
        pre.deleting,
        text_of(pre.selected_project) == Some(hash),
        files_of(pre.files->Ok_0).dom().contains(path),
        post.files is Ok,
        files_of(post.files->Ok_0) == files_of(pre.files->Ok_0).remove(path),
        !post.deleting,
        exists|listing: Seq<(String, ProfileFile)>|
            #![trigger sorted_by_name(listing)]
            is_listing(listing, files_of(pre.files->Ok_0)) && sorted_by_name(listing)
                && path_position(listing, path) is Some && listing[path_position(
                listing,
                path,
            )->Some_0].1.hash@ == hash && text_of(post.selected_project) == neighbour(
                listing,
                path_position(listing, path)->Some_0,
            ),
{
    let files = files_of(pre.files->Ok_0);
    let first = choose|listing: Seq<(String, ProfileFile)>|
        #![trigger sorted_by_name(listing)]
        is_listing(listing, files) && sorted_by_name(listing) && mods_step(
            pre,
            index,
            loader,
            Key::Delete,
            listing,
            asked,
            out,
        );
    lemma_hash_position(first, hash);
    let q = hash_position(first, hash)->Some_0;
    assert(files.contains_pair(first[q].0@, first[q].1));
    let second = choose|listing: Seq<(String, ProfileFile)>|
        #![trigger sorted_by_name(listing)]
        is_listing(listing, files) && sorted_by_name(listing) && text_of(post.selected_project)
            == selection_without(listing, text_of(asked.selected_project), path);
    lemma_listed_path(second, files, path);
    assert(sorted_by_name(second));
}

/// Where no two files bear the same name, the display order is one, and
/// deleting the selected file re-selects the file immediately before it in
/// that order. With `listing` the files as they were, in display order: the
/// removed file stood at a place of it and bore the selected hash, and the
/// selection is now the file at the place before, or at the place after
/// where the removed file stood first, or none where it stood alone.
pub proof fn lemma_removal_reselects_previous(
    pre: ModDisplayData,
    index: usize,
    loader: ModLoader,
    asked: ModDisplayData,
    out: TabOutcome,
    path: Seq<char>,
    hash: Seq<char>,
    post: ModDisplayData,
    listing: Seq<(String, ProfileFile)>,
)
    requires
        pre.files is Ok,
        mods_key(pre, index, loader, Key::Delete, asked, out),
        out.action@ == (ActionView::RemoveMod { index, path, hash }),
        mods_removed(asked, path, post),
        distinct_names(files_of(pre.files->Ok_0)),
        is_listing(listing, files_of(pre.files->Ok_0)),
        sorted_by_name(listing),
    ensures
        path_position(listing, path) is Some,
        listing[path_position(listing, path)->Some_0].1.hash@ == hash,
        text_of(post.selected_project) == neighbour(
            listing,
            path_position(listing, path)->Some_0,
        ),
        files_of(post.files->Ok_0) == files_of(pre.files->Ok_0).remove(path),
        !post.deleting,
{
    let files = files_of(pre.files->Ok_0);
    lemma_removal_reselects(pre, index, loader, asked, out, path, hash, post);
    let seen = choose|seen: Seq<(String, ProfileFile)>|
        #![trigger sorted_by_name(seen)]
        is_listing(seen, files) && sorted_by_name(seen) && path_position(seen, path) is Some
            && seen[path_position(seen, path)->Some_0].1.hash@ == hash && text_of(
            post.selected_project,
        ) == neighbour(seen, path_position(seen, path)->Some_0);
    lemma_same_length(listing, seen, files);
    assert forall|i: int| 0 <= i < listing.len() implies (#[trigger] listing[i]).0@ == seen[i].0@
        && listing[i].1 == seen[i].1 by {
        lemma_same_place(listing, seen, files, i);
    }
    lemma_path_position(seen, path);
    lemma_path_position(listing, path);
    let k = path_position(seen, path)->Some_0;
    assert(listing[k].0@ == path);
    match path_position(listing, path) {
        Some(p) => {
            if p < k {
                assert(seen[p].0@ == listing[p].0@);
            }
        },
        None => {},
    }
}

impl ModDisplayData {
    /// The tab over `files`, with nothing selected.
    pub fn new(files: Result<Vec<(String, ProfileFile)>, String>) -> (data: Self)
        ensures
            mods_open_on(data, files),
    {
        let files = match files {
            Ok(list) => Ok(files_from(list)),
            Err(error) => Err(error),
        };
        Self { files, selected_project: None, deleting: false }
    }

    /// The files in display order: by name.
    pub fn sort_files(&self) -> (sorted: Vec<(String, ProfileFile)>)
        requires
            self.files is Ok,
        ensures
            is_listing(sorted@, files_of(self.files->Ok_0)),
            sorted_by_name(sorted@),
    {
        match &self.files {
            Ok(projects) => sorted_entries(projects),
            Err(_) => Vec::new(),
        }
    }

    /// Handles a key on the tab of the instance at `index`, which runs on
    /// `loader`. Where the files could not be had, no key is consumed. The
    /// files themselves are never touched: what changes them is asked of the
    /// caller.
    pub fn handle_key(&mut self, index: usize, loader: ModLoader, key: Key) -> (out: TabOutcome)
        ensures
            mods_key(*old(self), index, loader, key, *final(self), out),
    {
        if self.files.is_err() {
            return TabOutcome::ignored();
        }
        let files = self.sort_files();
        let out = match key {
            Key::Char(c) => {
                if c == '=' || c == '+' {
                    if loader != ModLoader::Vanilla {
                        TabOutcome::switching(InstanceTab::Search)
                    } else {
                        TabOutcome::consumed()
                    }
                } else {
                    TabOutcome::ignored()
                }
            },
            Key::Up => {
                if files.len() > 0 {
                    let hash = match &self.selected_project {
                        Some(selected) => {
                            let is_selected = |entry: &(String, ProfileFile)| -> (hit: bool)
                                ensures
                                    hit == (entry.1.hash@ == selected@),
                                {
                                    entry.1.hash == *selected
                                };
                            let file = get_last(&files, is_selected);
                            proof {
                                lemma_match_is_hash_position(files@, is_selected, selected@);
                            }
                            file.1.hash.clone()
                        },
                        None => files[0].1.hash.clone(),
                    };
                    self.selected_project = Some(hash);
                }
                self.deleting = false;
                TabOutcome::consumed()
            },
            Key::Down => {
                if files.len() > 0 {
                    let hash = match &self.selected_project {
                        Some(selected) => {
                            let is_selected = |entry: &(String, ProfileFile)| -> (hit: bool)
                                ensures
                                    hit == (entry.1.hash@ == selected@),
                                {
                                    entry.1.hash == *selected
                                };
                            let file = get_next(&files, is_selected);
                            proof {
                                lemma_match_is_hash_position(files@, is_selected, selected@);
                            }
                            file.1.hash.clone()
                        },
                        None => files[0].1.hash.clone(),
                    };
                    self.selected_project = Some(hash);
                }
                TabOutcome::consumed()
            },
            Key::Enter => {
                let found = match &self.selected_project {
                    Some(selected) => position_of_hash(&files, selected),
                    None => None,
                };
                match (found, &self.selected_project) {
                    (Some(p), Some(selected)) => TabOutcome::asking(
                        Action::ToggleMod {
                            index,
                            path: files[p].0.clone(),
                            hash: selected.clone(),
                        },
                    ),
                    _ => TabOutcome::consumed(),
                }
            },
            Key::Delete => {
                if self.selected_project.is_none() {
                    TabOutcome::consumed()
                } else if !self.deleting {
                    self.deleting = true;
                    TabOutcome::consumed()
                } else {
                    let found = match &self.selected_project {
                        Some(selected) => position_of_hash(&files, selected),
                        None => None,
                    };
                    match (found, &self.selected_project) {
                        (Some(p), Some(selected)) => TabOutcome::asking(
                            Action::RemoveMod {
                                index,
                                path: files[p].0.clone(),
                                hash: selected.clone(),
                            },
                        ),
                        _ => {
                            self.deleting = false;
                            self.selected_project = None;
                            TabOutcome::consumed()
                        },
                    }
                }
            },
            _ => TabOutcome::ignored(),
        };
        proof {
            if old(self).selected_project is Some {
                lemma_hash_position(files@, old(self).selected_project->Some_0@);
            }
        }
        out
    }

    /// Takes in that the backend has enabled or disabled the file at
    /// `old_path`, which now stands at `new_path`: the entry moves to the new
    /// path and takes the name that the path gives it. Selection and pending
    /// removal stay. Where no file stood at the old path, nothing changes.
    pub fn toggled(&mut self, old_path: &str, new_path: String)
        requires
            old(self).files is Ok,
        ensures
            mods_toggled(*old(self), old_path@, new_path@, *final(self)),
    {
        let files = self.sort_files();
        proof {
            lemma_listed_path(files@, files_of(self.files->Ok_0), old_path@);
        }
        match position_of_path(&files, old_path) {
            Some(p) => {
                let file = &files[p].1;
                let name = strip_prefix(
                    new_path.as_str(),
                    file.project_type.get_folder_with_suffix(),
                );
                let moved = ProfileFile {
                    hash: file.hash.clone(),
                    file_name: String::from_str(name),
                    size: file.size,
                    metadata: match &file.metadata {
                        Some(data) => Some(
                            crate::model::FileMetadata {
                                project_id: data.project_id.clone(),
                                version_id: data.version_id.clone(),
                            },
                        ),
                        None => None,
                    },
                    update_version_id: copy_text(&file.update_version_id),
                    project_type: file.project_type,
                };
                assert(is_moved(files@[p as int].1, moved, new_path@));
                match &mut self.files {
                    Ok(projects) => {
                        files_remove(projects, old_path);
                        files_insert(projects, new_path, moved);
                    },
                    Err(_) => {},
                }
            },
            None => {},
        }
    }

    /// Takes in that the backend has removed the file at `path`. The entry
    /// goes, and so does the pending removal. Where the file bore the
    /// selected hash, the selection moves to the file that stood before it in
    /// display order, or after it where it stood first; nothing is selected
    /// where it stood alone.
    pub fn removed(&mut self, path: &str)
        requires
            old(self).files is Ok,
        ensures
            mods_removed(*old(self), path@, *final(self)),
    {
        let files = self.sort_files();
        let next: Option<String> = match position_of_path(&files, path) {
            Some(p) => {
                let was_selected: bool = match &self.selected_project {
                    Some(selected) => *selected == files[p].1.hash,
                    None => false,
                };
                if !was_selected {
                    copy_text(&self.selected_project)
                } else if p > 0 {
                    Some(files[p - 1].1.hash.clone())
                } else if files.len() > 1 {
                    Some(files[1].1.hash.clone())
                } else {
                    None
                }
            },
            None => copy_text(&self.selected_project),
        };
        match &mut self.files {
            Ok(projects) => {
                files_remove(projects, path);
            },
            Err(_) => {},
        }
        self.selected_project = next;
        self.deleting = false;
        proof {
            assert(sorted_by_name(files@));
        }
    }

    /// Project and version of every file that knows where it came from, in
    /// display order; nothing where the files could not be had.
    pub fn installed(&self) -> (pairs: Vec<(String, String)>)
        ensures
            self.files is Err ==> pairs@.len() == 0,
            self.files is Ok ==> exists|listing: Seq<(String, ProfileFile)>|
                #![trigger sorted_by_name(listing)]
                is_listing(listing, files_of(self.files->Ok_0)) && sorted_by_name(listing)
                    && pair_texts(pairs@) == installed_of(listing),
    {
        let mut pairs: Vec<(String, String)> = Vec::new();
        if self.files.is_err() {
            return pairs;
        }
        let files = self.sort_files();
        let mut i: usize = 0;
        while i < files.len()
            invariant
                i <= files@.len(),
                pair_texts(pairs@) == installed_of(files@.subrange(0, i as int)),
            decreases files@.len() - i,
        {
            proof {
                let upto = files@.subrange(0, i + 1);
                assert(upto.drop_last() =~= files@.subrange(0, i as int));
            }
            match &files[i].1.metadata {
                Some(data) => {
                    let pair = (data.project_id.clone(), data.version_id.clone());
                    pairs.push(pair);
                },
                None => {},
            }
            i += 1;
        }
        proof {
            assert(files@.subrange(0, files@.len() as int) =~= files@);
        }
        pairs
    }
}

/// The handler of the files tab.
pub struct ModDisplayBody();

impl ModDisplayBody {
    /// Handles a key on the files tab of the viewed instance.
    pub fn on_key_press(page: &mut Page, key: Key) -> (out: Handled)
        requires
            old(page).wf(),
            old(page).viewing is Some,
        ensures
            final(page).wf(),
            body_routed(*old(page), InstanceTab::Mods, key, *final(page), out),
    {
        let mut view = page.viewing.take().unwrap();
        let loader = page.instances[view.index].loader;
        let tab_out = view.mods.handle_key(view.index, loader, key);
        match tab_out.tab {
            Some(tab) => {
                view.tab = tab;
            },
            None => {},
        }
        page.viewing = Some(view);
        Handled { handled: tab_out.handled, action: tab_out.action }
    }
}

} // verus!
