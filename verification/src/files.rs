//! The installed files of a profile, as the backend's concurrent map holds
//! them, keyed by their path inside the profile.

use vstd::prelude::*;
use vstd::string::*;
use dashmap::DashMap;
use crate::model::ProfileFile;
use crate::strings::{
    chars_le, chars_of, lemma_text_le_antisymmetric, lemma_text_le_total,
    lemma_text_le_transitive, same_text, text_le,
};
use crate::utils::{first_match, no_match};

verus! {

/// `dashmap::DashMap`, the concurrent hash map. Of a value of it nothing is
/// known but what [`files_of`] names.
#[verifier::external_type_specification]
#[verifier::external_body]
#[verifier::reject_recursive_types(K)]
#[verifier::reject_recursive_types(V)]
#[verifier::reject_recursive_types(S)]
pub struct ExDashMap<K, V, S>(DashMap<K, V, S>);

/// What a map of files holds: each path with its file.
pub uninterp spec fn files_of(map: DashMap<String, ProfileFile>) -> Map<Seq<char>, ProfileFile>;

/// The map that holds no file.
pub open spec fn no_files() -> Map<Seq<char>, ProfileFile> {
    Map::empty()
}

/// `DashMap::new` makes a map without entries.
#[verifier::external_body]
pub(crate) fn files_new() -> (made: DashMap<String, ProfileFile>)
    ensures
        files_of(made) == no_files(),
{
    DashMap::new()
}

/// `DashMap::insert` sets the entry of `key` to `value`, whether or not the
/// key had one, and touches no other entry. No reference into the map is
/// held across the call, so it returns.
#[verifier::external_body]
pub(crate) fn files_insert(map: &mut DashMap<String, ProfileFile>, key: String, value: ProfileFile)
    ensures
        files_of(*final(map)) == files_of(*old(map)).insert(key@, value),
{
    map.insert(key, value);
}

/// `DashMap::remove` takes the entry of `key` out, if there is one, and
/// touches no other entry. No reference into the map is held across the
/// call, so it returns.
#[verifier::external_body]
pub(crate) fn files_remove(map: &mut DashMap<String, ProfileFile>, key: &str)
    ensures
        files_of(*final(map)) == files_of(*old(map)).remove(key@),
{
    map.remove(key);
}

/// Whether `entries` lists what `files` holds: every entry is a path of the
/// map with its file, no path stands twice, and no path of the map is
/// missing.
pub open spec fn is_listing(
    entries: Seq<(String, ProfileFile)>,
    files: Map<Seq<char>, ProfileFile>,
) -> bool {
    &&& forall|i: int|
        0 <= i < entries.len() ==> files.contains_pair((#[trigger] entries[i]).0@, entries[i].1)
    &&& forall|i: int, j: int|
        0 <= i < entries.len() && 0 <= j < entries.len() && i != j ==> (#[trigger] entries[i]).0@
            != (#[trigger] entries[j]).0@
    &&& forall|key: Seq<char>|
        files.dom().contains(key) ==> exists|i: int|
            0 <= i < entries.len() && (#[trigger] entries[i]).0@ == key
}

/// `DashMap::iter` visits every entry once, in an order that the map does
/// not promise; each visited entry is handed out as its path and a copy of
/// its file.
#[verifier::external_body]
pub(crate) fn files_entries(map: &DashMap<String, ProfileFile>) -> (out: Vec<(String, ProfileFile)>)
    ensures
        is_listing(out@, files_of(*map)),
{
    map.iter().map(|entry| (entry.key().clone(), entry.value().duplicate())).collect()
}

/// Whether the files of `entries` stand in the order of their names.
pub open spec fn sorted_by_name(entries: Seq<(String, ProfileFile)>) -> bool {
    forall|i: int, j: int|
        0 <= i < j < entries.len() ==> text_le(
            (#[trigger] entries[i]).1.file_name@,
            (#[trigger] entries[j]).1.file_name@,
        )
}

/// Whether `to` holds the items of `from`, each once, with `perm` telling for
/// every place of `to` the place in `from` that its item came from.
pub open spec fn rearranges<T>(perm: Seq<int>, from: Seq<T>, to: Seq<T>) -> bool {
    &&& perm.len() == to.len()
    &&& from.len() == to.len()
    &&& forall|k: int|
        0 <= k < perm.len() ==> 0 <= #[trigger] perm[k] < from.len() && to[k] == from[perm[k]]
    &&& forall|k1: int, k2: int|
        0 <= k1 < perm.len() && 0 <= k2 < perm.len() && k1 != k2 ==> #[trigger] perm[k1]
            != #[trigger] perm[k2]
    &&& forall|j: int| 0 <= j < from.len() ==> #[trigger] perm.contains(j)
}

/// A rearranged listing is still a listing.
pub proof fn lemma_rearranged_listing(
    perm: Seq<int>,
    from: Seq<(String, ProfileFile)>,
    to: Seq<(String, ProfileFile)>,
    files: Map<Seq<char>, ProfileFile>,
)
    requires
        rearranges(perm, from, to),
        is_listing(from, files),
    ensures
        is_listing(to, files),
{
    assert forall|i: int| 0 <= i < to.len() implies files.contains_pair(
        (#[trigger] to[i]).0@,
        to[i].1,
    ) by {
        assert(to[i] == from[perm[i]]);
    }
    assert forall|i: int, j: int| 0 <= i < to.len() && 0 <= j < to.len() && i != j implies (
    #[trigger] to[i]).0@ != (#[trigger] to[j]).0@ by {
        assert(perm[i] != perm[j]);
    }
    assert forall|key: Seq<char>| files.dom().contains(key) implies exists|i: int|
        0 <= i < to.len() && (#[trigger] to[i]).0@ == key by {
        let j = choose|j: int| 0 <= j < from.len() && (#[trigger] from[j]).0@ == key;
        assert(perm.contains(j));
        let k = choose|k: int| 0 <= k < perm.len() && perm[k] == j;
    }
}

/// The entries of `entries` in the order of their files' names. Files of one
/// name stand in no promised order.
pub fn sort_by_name(entries: Vec<(String, ProfileFile)>) -> (sorted: Vec<(String, ProfileFile)>)
    ensures
        sorted_by_name(sorted@),
        exists|perm: Seq<int>| rearranges(perm, entries@, sorted@),
{
    let ghost all = entries@;
    let mut entries = entries;
    let mut sorted: Vec<(String, ProfileFile)> = Vec::new();
    let mut names: Vec<Vec<char>> = Vec::new();
    let ghost mut perm: Seq<int> = Seq::empty();
    while entries.len() > 0
        invariant
            entries@.len() <= all.len(),
            entries@ == all.subrange(0, entries@.len() as int),
            sorted@.len() == all.len() - entries@.len(),
            perm.len() == sorted@.len(),
            names@.len() == sorted@.len(),
            forall|k: int|
                0 <= k < perm.len() ==> entries@.len() <= #[trigger] perm[k] < all.len()
                    && sorted@[k] == all[perm[k]],
            forall|k: int| 0 <= k < names@.len() ==> (#[trigger] names@[k])@ == sorted@[k].1.file_name@,
            forall|k1: int, k2: int|
                0 <= k1 < perm.len() && 0 <= k2 < perm.len() && k1 != k2 ==> #[trigger] perm[k1]
                    != #[trigger] perm[k2],
            forall|j: int| entries@.len() <= j < all.len() ==> #[trigger] perm.contains(j),
            sorted_by_name(sorted@),
        decreases entries@.len(),
    {
        let ghost old_sorted = sorted@;
        let ghost old_names = names@;
        let ghost old_perm = perm;
        let item = entries.pop().unwrap();
        let ghost m = entries@.len() as int;
        let name = chars_of(item.1.file_name.as_str());
        let mut p: usize = 0;
        while p < names.len() && chars_le(&names[p], &name)
            invariant
                p <= names@.len(),
                names@ == old_names,
                forall|q: int| 0 <= q < p ==> text_le((#[trigger] names@[q])@, name@),
            decreases names@.len() - p,
        {
            p += 1;
        }
        proof {
            if p < names@.len() {
                lemma_text_le_total(names@[p as int]@, name@);
                assert forall|q: int| p < q < old_sorted.len() implies text_le(
                    name@,
                    (#[trigger] old_sorted[q]).1.file_name@,
                ) by {
                    lemma_text_le_transitive(
                        name@,
                        old_sorted[p as int].1.file_name@,
                        old_sorted[q].1.file_name@,
                    );
                }
            }
            assert forall|q: int| 0 <= q < p implies text_le(
                (#[trigger] old_sorted[q]).1.file_name@,
                name@,
            ) by {
                assert(old_names[q]@ == old_sorted[q].1.file_name@);
            }
            perm = perm.insert(p as int, m);
        }
        sorted.insert(p, item);
        names.insert(p, name);
        proof {
            assert forall|j: int| entries@.len() <= j < all.len() implies #[trigger] perm.contains(
                j,
            ) by {
                if j == m {
                    assert(perm[p as int] == j);
                } else {
                    assert(old_perm.contains(j));
                    let k = choose|k: int| 0 <= k < old_perm.len() && old_perm[k] == j;
                    if k < p {
                        assert(perm[k] == j);
                    } else {
                        assert(perm[k + 1] == j);
                    }
                }
            }
        }
    }
    proof {
        assert(rearranges(perm, all, sorted@));
    }
    sorted
}

/// What `files` holds, path by path, in the order of the files' names.
pub fn sorted_entries(files: &DashMap<String, ProfileFile>) -> (sorted: Vec<(String, ProfileFile)>)
    ensures
        is_listing(sorted@, files_of(*files)),
        sorted_by_name(sorted@),
{
    let entries = files_entries(files);
    let sorted = sort_by_name(entries);
    proof {
        let perm = choose|perm: Seq<int>| rearranges(perm, entries@, sorted@);
        lemma_rearranged_listing(perm, entries@, sorted@, files_of(*files));
    }
    sorted
}

/// The map that holds the entries of `list`; of two entries with one path
/// the later one stays.
pub open spec fn map_of(list: Seq<(String, ProfileFile)>) -> Map<Seq<char>, ProfileFile>
    decreases list.len(),
{
    if list.len() == 0 {
        no_files()
    } else {
        map_of(list.drop_last()).insert(list.last().0@, list.last().1)
    }
}

/// The map that holds the entries of `list`.
pub fn files_from(list: Vec<(String, ProfileFile)>) -> (files: DashMap<String, ProfileFile>)
    ensures
        files_of(files) == map_of(list@),
{
    let ghost all = list@;
    let mut list = list;
    let mut files = files_new();
    let mut rest: Vec<(String, ProfileFile)> = Vec::new();
    while list.len() > 0
        invariant
            list@.len() <= all.len(),
            list@ == all.subrange(0, list@.len() as int),
            rest@.len() == all.len() - list@.len(),
            forall|k: int| 0 <= k < rest@.len() ==> #[trigger] rest@[k] == all[all.len() - 1 - k],
        decreases list@.len(),
    {
        let item = list.pop().unwrap();
        rest.push(item);
    }
    let ghost turned = rest@;
    while rest.len() > 0
        invariant
            rest@.len() <= all.len(),
            rest@ == turned.subrange(0, rest@.len() as int),
            turned.len() == all.len(),
            forall|k: int| 0 <= k < turned.len() ==> #[trigger] turned[k] == all[all.len() - 1 - k],
            files_of(files) == map_of(all.subrange(0, all.len() - rest@.len())),
        decreases rest@.len(),
    {
        let ghost done = all.len() - rest@.len();
        let item = rest.pop().unwrap();
        proof {
            let next = all.subrange(0, done + 1);
            assert(next.drop_last() =~= all.subrange(0, done));
        }
        files_insert(&mut files, item.0, item.1);
    }
    files
}

/// The first place of `entries` whose file has the hash `hash`.
pub open spec fn hash_position(entries: Seq<(String, ProfileFile)>, hash: Seq<char>) -> Option<int>
    decreases entries.len(),
{
    if entries.len() == 0 {
        None
    } else {
        match hash_position(entries.drop_last(), hash) {
            Some(p) => Some(p),
            None => if entries.last().1.hash@ == hash {
                Some(entries.len() - 1)
            } else {
                None
            },
        }
    }
}

/// What [`hash_position`] finds is the first place with that hash, and it
/// finds nothing only where no place has it.
pub proof fn lemma_hash_position(entries: Seq<(String, ProfileFile)>, hash: Seq<char>)
    ensures
        match hash_position(entries, hash) {
            Some(p) => 0 <= p < entries.len() && entries[p].1.hash@ == hash && forall|k: int|
                0 <= k < p ==> (#[trigger] entries[k]).1.hash@ != hash,
            None => forall|k: int| 0 <= k < entries.len() ==> (#[trigger] entries[k]).1.hash@ != hash,
        },
    decreases entries.len(),
{
    if entries.len() > 0 {
        lemma_hash_position(entries.drop_last(), hash);
        assert forall|k: int| 0 <= k < entries.len() - 1 implies entries[k]
            == entries.drop_last()[k] by {}
    }
}

/// A predicate that answers whether a file has the hash `hash` finds its first
/// match where [`hash_position`] does, and none where that finds none.
pub proof fn lemma_match_is_hash_position<F: Fn(&(String, ProfileFile)) -> bool>(
    entries: Seq<(String, ProfileFile)>,
    predicate: F,
    hash: Seq<char>,
)
    requires
        forall|entry: (String, ProfileFile), hit: bool|
            #[trigger] predicate.ensures((&entry,), hit) ==> hit == (entry.1.hash@ == hash),
    ensures
        forall|p: int|
            #[trigger] first_match(entries, predicate, p) ==> hash_position(entries, hash) == Some(
                p,
            ),
        no_match(entries, predicate) ==> hash_position(entries, hash) is None,
{
    lemma_hash_position(entries, hash);
    assert forall|p: int| #[trigger] first_match(entries, predicate, p) implies hash_position(
        entries,
        hash,
    ) == Some(p) by {
        assert(predicate.ensures((&entries[p],), true));
        match hash_position(entries, hash) {
            Some(q) => {
                if q < p {
                    assert(predicate.ensures((&entries[q],), false));
                }
            },
            None => {},
        }
    }
    if no_match(entries, predicate) {
        match hash_position(entries, hash) {
            Some(q) => {
                assert(predicate.ensures((&entries[q],), false));
            },
            None => {},
        }
    }
}

/// Executable form of [`hash_position`].
pub fn position_of_hash(entries: &Vec<(String, ProfileFile)>, hash: &String) -> (found: Option<usize>)
    ensures
        match found {
            Some(p) => p < entries@.len() && hash_position(entries@, hash@) == Some(p as int),
            None => hash_position(entries@, hash@) is None,
        },
{
    let mut i: usize = 0;
    while i < entries.len()
        invariant
            i <= entries@.len(),
            hash_position(entries@.subrange(0, i as int), hash@) is None,
        decreases entries@.len() - i,
    {
        proof {
            let next = entries@.subrange(0, i + 1);
            assert(next.drop_last() =~= entries@.subrange(0, i as int));
        }
        if entries[i].1.hash == *hash {
            proof {
                lemma_position_found(entries@, hash@, i as int);
            }
            return Some(i);
        }
        i += 1;
    }
    proof {
        assert(entries@.subrange(0, entries@.len() as int) =~= entries@);
    }
    None
}

/// A place found in a prefix is the place found in the whole.
pub proof fn lemma_position_found(entries: Seq<(String, ProfileFile)>, hash: Seq<char>, upto: int)
    requires
        0 <= upto < entries.len(),
        hash_position(entries.subrange(0, upto + 1), hash) == Some(upto),
    ensures
        hash_position(entries, hash) == Some(upto),
    decreases entries.len() - upto,
{
    if upto + 1 < entries.len() {
        lemma_prefix_found(entries, hash, upto, entries.len() as int);
        assert(entries.subrange(0, entries.len() as int) =~= entries);
    } else {
        assert(entries.subrange(0, upto + 1) =~= entries);
    }
}

/// A place found in a prefix is the place found in every longer prefix.
pub proof fn lemma_prefix_found(
    entries: Seq<(String, ProfileFile)>,
    hash: Seq<char>,
    upto: int,
    len: int,
)
    requires
        0 <= upto < len <= entries.len(),
        hash_position(entries.subrange(0, upto + 1), hash) == Some(upto),
    ensures
        hash_position(entries.subrange(0, len), hash) == Some(upto),
    decreases len,
{
    if len > upto + 1 {
        lemma_prefix_found(entries, hash, upto, len - 1);
        assert(entries.subrange(0, len).drop_last() =~= entries.subrange(0, len - 1));
    }
}

/// Whether no two files of `files` bear the same name.
pub open spec fn distinct_names(files: Map<Seq<char>, ProfileFile>) -> bool {
    forall|a: Seq<char>, b: Seq<char>|
        files.dom().contains(a) && files.dom().contains(b) && a != b ==> (#[trigger] files[a]).file_name@
            != (#[trigger] files[b]).file_name@
}

/// Where no two files bear the same name, the display order is one: two
/// listings of the same files, both in the order of the names, hold the same
/// file under the same path at every place.
pub proof fn lemma_same_place(
    a: Seq<(String, ProfileFile)>,
    b: Seq<(String, ProfileFile)>,
    files: Map<Seq<char>, ProfileFile>,
    i: int,
)
    requires
        is_listing(a, files),
        is_listing(b, files),
        sorted_by_name(a),
        sorted_by_name(b),
        distinct_names(files),
        0 <= i < a.len(),
    ensures
        i < b.len(),
        a[i].0@ == b[i].0@,
        a[i].1 == b[i].1,
    decreases i,
{
    let key = a[i].0@;
    assert(files.contains_pair(a[i].0@, a[i].1));
    let j = choose|j: int| 0 <= j < b.len() && (#[trigger] b[j]).0@ == key;
    assert(files.contains_pair(b[j].0@, b[j].1));
    if j < i {
        lemma_same_place(a, b, files, j);
        assert(a[j].0@ == a[i].0@);
    } else if j > i {
        let other = b[i].0@;
        assert(files.contains_pair(b[i].0@, b[i].1));
        assert(b[i].0@ != b[j].0@);
        assert(text_le(b[i].1.file_name@, b[j].1.file_name@));
        let k = choose|k: int| 0 <= k < a.len() && (#[trigger] a[k]).0@ == other;
        assert(files.contains_pair(a[k].0@, a[k].1));
        if k < i {
            lemma_same_place(a, b, files, k);
            assert(b[k].0@ == b[i].0@);
        } else if k > i {
            assert(text_le(a[i].1.file_name@, a[k].1.file_name@));
            lemma_text_le_antisymmetric(a[i].1.file_name@, a[k].1.file_name@);
        } else {
            assert(b[i].0@ == b[j].0@);
        }
    }
}

/// Where no two files bear the same name, two listings of the same files in
/// the order of the names are of one length.
pub proof fn lemma_same_length(
    a: Seq<(String, ProfileFile)>,
    b: Seq<(String, ProfileFile)>,
    files: Map<Seq<char>, ProfileFile>,
)
    requires
        is_listing(a, files),
        is_listing(b, files),
        sorted_by_name(a),
        sorted_by_name(b),
        distinct_names(files),
    ensures
        a.len() == b.len(),
{
    if a.len() > 0 {
        lemma_same_place(a, b, files, a.len() - 1);
    }
    if b.len() > 0 {
        lemma_same_place(b, a, files, b.len() - 1);
    }
}

/// The first place of `entries` that stands under the path `path`.
pub open spec fn path_position(entries: Seq<(String, ProfileFile)>, path: Seq<char>) -> Option<int>
    decreases entries.len(),
{
    if entries.len() == 0 {
        None
    } else {
        match path_position(entries.drop_last(), path) {
            Some(p) => Some(p),
            None => if entries.last().0@ == path {
                Some(entries.len() - 1)
            } else {
                None
            },
        }
    }
}

/// What [`path_position`] finds is the first place under that path, and it
/// finds nothing only where no place stands under it.
pub proof fn lemma_path_position(entries: Seq<(String, ProfileFile)>, path: Seq<char>)
    ensures
        match path_position(entries, path) {
            Some(p) => 0 <= p < entries.len() && entries[p].0@ == path && forall|k: int|
                0 <= k < p ==> (#[trigger] entries[k]).0@ != path,
            None => forall|k: int| 0 <= k < entries.len() ==> (#[trigger] entries[k]).0@ != path,
        },
    decreases entries.len(),
{
    if entries.len() > 0 {
        lemma_path_position(entries.drop_last(), path);
        assert forall|k: int| 0 <= k < entries.len() - 1 implies entries[k]
            == entries.drop_last()[k] by {}
    }
}

/// In a listing of `files`, a path has a place exactly where the map has
/// the path, and the file at that place is the file of the map.
pub proof fn lemma_listed_path(
    entries: Seq<(String, ProfileFile)>,
    files: Map<Seq<char>, ProfileFile>,
    path: Seq<char>,
)
    requires
        is_listing(entries, files),
    ensures
        path_position(entries, path) is Some <==> files.dom().contains(path),
        match path_position(entries, path) {
            Some(p) => 0 <= p < entries.len() && entries[p].0@ == path && entries[p].1
                == files[path],
            None => true,
        },
{
    lemma_path_position(entries, path);
    match path_position(entries, path) {
        Some(p) => {
            assert(files.contains_pair(entries[p].0@, entries[p].1));
        },
        None => {
            if files.dom().contains(path) {
                let i = choose|i: int| 0 <= i < entries.len() && (#[trigger] entries[i]).0@ == path;
                assert(entries[i].0@ == path);
            }
        },
    }
}

/// Executable form of [`path_position`].
pub fn position_of_path(entries: &Vec<(String, ProfileFile)>, path: &str) -> (found: Option<usize>)
    ensures
        match found {
            Some(p) => p < entries@.len() && path_position(entries@, path@) == Some(p as int),
            None => path_position(entries@, path@) is None,
        },
{
    let mut i: usize = 0;
    while i < entries.len()
        invariant
            i <= entries@.len(),
            forall|k: int| 0 <= k < i ==> (#[trigger] entries@[k]).0@ != path@,
        decreases entries@.len() - i,
    {
        if same_text(entries[i].0.as_str(), path) {
            proof {
                lemma_path_position(entries@, path@);
            }
            return Some(i);
        }
        i += 1;
    }
    proof {
        lemma_path_position(entries@, path@);
    }
    None
}

} // verus!
