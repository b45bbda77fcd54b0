//! The paginated cursor over the results of a search.

use vstd::prelude::*;
use vstd::string::*;
use crate::cursor::{apply_move, index_in_range, moved};
use crate::keys::Key;
use crate::model::SearchEntry;
use crate::select::{list_move, list_move_of};
use crate::strings::{decimal, decimal_digits, join_texts, joined_by, same_texts, texts};

verus! {

/// Results on one page.
pub const PAGE_SIZE: u64 = 10;

/// The state of a search: the page shown, its results and the selection among
/// them, and the signature of the search that was last issued.
pub struct SearchState {
    pub index: Option<usize>,
    pub results: Vec<SearchEntry>,
    /// Project and version of what is installed.
    pub installed: Vec<(String, String)>,
    /// The page shown, counted from zero.
    pub page: u32,
    /// The number of results in all, over every page.
    pub total: u32,
    pub last_facets: Vec<String>,
    pub last_query: String,
}

/// What a key press asks of the caller.
#[derive(Clone, Debug, PartialEq, Eq)]
pub struct SearchKey {
    /// Whether the key was consumed.
    pub handled: bool,
    /// The query to send to the search service, where the page changed.
    pub query: Option<String>,
}

/// The query that asks the search service for page `page` of what matches
/// `query` within `facets`.
pub open spec fn query_text(facets: Seq<Seq<char>>, page: nat, query: Seq<char>) -> Seq<char> {
    "?facets=["@ + joined_by(facets, ","@) + "]&limit="@ + decimal_digits(PAGE_SIZE as nat)
        + "&offset="@ + decimal_digits(page * PAGE_SIZE as nat) + "&index=relevance&query="@
        + query
}

/// The pages that `hits` results fill, the last one perhaps in part.
pub open spec fn pages_for(hits: nat) -> int {
    (hits + PAGE_SIZE - 1) / PAGE_SIZE as int
}

/// Whether a page follows page `page` of `total` results: whether results
/// stand beyond the last place of that page.
pub open spec fn has_next_page(page: u32, total: u32) -> bool {
    (page + 1) * PAGE_SIZE < total
}

/// A page is followed by another exactly when it is not the last of the
/// pages that the results fill.
pub proof fn lemma_next_page_unless_last(page: u32, total: u32)
    ensures
        has_next_page(page, total) <==> page + 1 < pages_for(total as nat),
{
}

/// The page that `key` turns to from `page`, where it turns the page.
pub open spec fn turned_page(key: Key, page: u32, total: u32) -> Option<u32> {
    match key {
        Key::Left => if page > 0 { Some((page - 1) as u32) } else { None },
        Key::Right => if has_next_page(page, total) { Some((page + 1) as u32) } else { None },
        _ => None,
    }
}

impl SearchState {
    /// The selection names one of the results.
    pub open spec fn wf(&self) -> bool {
        index_in_range(self.index, self.results@.len())
    }

    /// The signature of the search last issued.
    pub open spec fn signature(&self) -> (Seq<Seq<char>>, Seq<char>) {
        (texts(self.last_facets@), self.last_query@)
    }

    /// The query for the page that the state stands on.
    pub open spec fn current_query(&self) -> Seq<char> {
        query_text(texts(self.last_facets@), self.page as nat, self.last_query@)
    }

    /// A state without results, page, or issued search, with `index` as its
    /// selection. There is nothing to select yet: the state is well-formed
    /// only where `index` selects nothing.
    pub fn new(index: Option<usize>) -> (state: Self)
        ensures
            state.index == index,
            state.wf() == (index is None),
            state.results@.len() == 0,
            state.installed@.len() == 0,
            state.page == 0,
            state.total == 0,
            state.last_facets@.len() == 0,
            state.last_query@.len() == 0,
    {
        Self {
            index,
            results: Vec::new(),
            installed: Vec::new(),
            page: 0,
            total: 0,
            last_facets: Vec::new(),
            last_query: String::new(),
        }
    }

    /// Left and Right turn the page, where there is one to turn to, and ask
    /// for its results; Up, Down, PageUp and PageDown move the selection.
    /// Any other key is left to the caller.
    pub fn on_key_press(&mut self, key: Key) -> (out: SearchKey)
        requires
            old(self).wf(),
        ensures
            final(self).wf(),
            out.handled == (key == Key::Left || key == Key::Right || list_move(key) is Some),
            final(self).results == old(self).results,
            final(self).installed == old(self).installed,
            final(self).total == old(self).total,
            final(self).last_facets == old(self).last_facets,
            final(self).last_query == old(self).last_query,
            final(self).page == match turned_page(key, old(self).page, old(self).total) {
                Some(page) => page,
                None => old(self).page,
            },
            final(self).index == match list_move(key) {
                Some(m) => moved(old(self).index, old(self).results@.len(), m),
                None => old(self).index,
            },
            match out.query {
                Some(query) => turned_page(key, old(self).page, old(self).total) is Some
                    && query@ == final(self).current_query(),
                None => turned_page(key, old(self).page, old(self).total) is None,
            },
    {
        match key {
            Key::Left => {
                if self.page > 0 {
                    self.page -= 1;
                    let query = self.search();
                    SearchKey { handled: true, query: Some(query) }
                } else {
                    SearchKey { handled: true, query: None }
                }
            },
            Key::Right => {
                let next: u64 = (self.page as u64 + 1) * PAGE_SIZE;
                if next < self.total as u64 {
                    self.page += 1;
                    let query = self.search();
                    SearchKey { handled: true, query: Some(query) }
                } else {
                    SearchKey { handled: true, query: None }
                }
            },
            _ => match list_move_of(key) {
                Some(m) => {
                    self.index = apply_move(self.index, self.results.len(), m);
                    SearchKey { handled: true, query: None }
                },
                None => SearchKey { handled: false, query: None },
            },
        }
    }

    /// A copy of the selected result.
    pub fn get(&self) -> (chosen: Option<SearchEntry>)
        requires
            self.wf(),
        ensures
            chosen == match self.index {
                Some(i) => Some(self.results@[i as int]),
                None => None,
            },
    {
        match self.index {
            Some(index) => Some(self.results[index].duplicate()),
            None => None,
        }
    }

    /// The query for the page that the state stands on.
    pub fn search(&self) -> (query: String)
        ensures
            query@ == self.current_query(),
    {
        let mut query = String::from_str("?facets=[");
        query.append(join_texts(&self.last_facets, ",").as_str());
        query.append("]&limit=");
        query.append(decimal(PAGE_SIZE).as_str());
        query.append("&offset=");
        query.append(decimal(self.page as u64 * PAGE_SIZE).as_str());
        query.append("&index=relevance&query=");
        query.append(self.last_query.as_str());
        query
    }

    /// Takes in the answer to a query: the hits of one page, the offset of its
    /// first hit and the number of hits in all. The selection is reset.
    pub fn results_arrived(&mut self, hits: Vec<SearchEntry>, offset: u32, total_hits: u32)
        ensures
            final(self).wf(),
            final(self).index is None,
            final(self).results == hits,
            final(self).page == offset / (PAGE_SIZE as u32),
            final(self).total == total_hits,
            final(self).installed == old(self).installed,
            final(self).last_facets == old(self).last_facets,
            final(self).last_query == old(self).last_query,
    {
        self.results = hits;
        self.page = offset / 10;
        self.total = total_hits;
        self.index = None;
    }

    /// Issues a search where the signature differs from the one last issued,
    /// and remembers it; does nothing where it is the same.
    pub fn try_search(&mut self, facets: Vec<String>, query: String) -> (issued: Option<String>)
        ensures
            final(self).index == old(self).index,
            final(self).results == old(self).results,
            final(self).installed == old(self).installed,
            final(self).page == old(self).page,
            final(self).total == old(self).total,
            (texts(facets@), query@) == old(self).signature() ==> issued is None
                && final(self).last_facets == old(self).last_facets
                && final(self).last_query == old(self).last_query,
            (texts(facets@), query@) != old(self).signature() ==> issued is Some
                && issued->Some_0@ == final(self).current_query() && final(self).signature() == (
                texts(facets@),
                query@,
            ),
    {
        if !same_texts(&facets, &self.last_facets) || query != self.last_query {
            self.last_facets = facets;
            self.last_query = query;
            Some(self.search())
        } else {
            None
        }
    }

    /// Takes in what is installed: each project with its version.
    pub fn set_installed(&mut self, installed: Vec<(String, String)>)
        ensures
            final(self).installed == installed,
            final(self).index == old(self).index,
            final(self).results == old(self).results,
            final(self).page == old(self).page,
            final(self).total == old(self).total,
            final(self).last_facets == old(self).last_facets,
            final(self).last_query == old(self).last_query,
    {
        self.installed = installed;
    }
}

} // verus!
