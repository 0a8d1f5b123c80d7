//! The history store: an append-only chronological log of submitted lines,
//! a navigation cursor into it, and the active navigation query that decides
//! which entries the cursor may rest on.

use vstd::prelude::*;

use crate::core_editor::line_buffer::{BufState, LineBuffer};
use crate::text_manipulation::{contains_seq, str_contains, str_starts_with};

verus! {

/// The mathematical form of a navigation query.
pub enum NavQuery {
    /// Plain chronological walking; carries the buffer to restore when the
    /// walk leaves history.
    Normal(BufState),
    /// Only entries starting with the prefix count.
    Prefix(Seq<char>),
    /// Only entries containing the needle count.
    Substring(Seq<char>),
}

/// The active query semantics for walking the history.
#[derive(Debug)]
pub enum HistoryNavigationQuery {
    /// Plain chronological back/forward walking; the carried buffer
    /// preserves the user's in-progress line so that walking off the newest
    /// end restores exactly what was typed.
    Normal(LineBuffer),
    /// Back/forward only consider entries starting with the prefix.
    PrefixSearch(String),
    /// Back/forward only consider entries containing the needle.
    SubstringSearch(String),
}

impl View for HistoryNavigationQuery {
    type V = NavQuery;

    open spec fn view(&self) -> NavQuery {
        match self {
            HistoryNavigationQuery::Normal(lb) => NavQuery::Normal(lb@),
            HistoryNavigationQuery::PrefixSearch(p) => NavQuery::Prefix(p@),
            HistoryNavigationQuery::SubstringSearch(n) => NavQuery::Substring(n@),
        }
    }
}

impl Clone for HistoryNavigationQuery {
    /// A clone carries the same query.
    fn clone(&self) -> (r: Self)
        ensures
            r@ == self@,
    {
        match self {
            HistoryNavigationQuery::Normal(lb) => HistoryNavigationQuery::Normal(lb.clone()),
            HistoryNavigationQuery::PrefixSearch(p) => HistoryNavigationQuery::PrefixSearch(
                p.clone(),
            ),
            HistoryNavigationQuery::SubstringSearch(n) => HistoryNavigationQuery::SubstringSearch(
                n.clone(),
            ),
        }
    }
}

/// Whether an entry satisfies the query: every entry under plain walking,
/// entries starting with the prefix under prefix search, entries containing
/// the needle under substring search.
pub open spec fn query_matches(q: NavQuery, entry: Seq<char>) -> bool {
    match q {
        NavQuery::Normal(_) => true,
        NavQuery::Prefix(p) => p.is_prefix_of(entry),
        NavQuery::Substring(n) => contains_seq(entry, n),
    }
}

/// The mathematical state of the history store. A cursor equal to
/// `entries.len()` is the fresh position: no entry is selected.
pub struct HistoryState {
    /// The stored lines, oldest first.
    pub entries: Seq<Seq<char>>,
    /// The selected entry, or `entries.len()` for none.
    pub cursor: int,
    /// The active navigation query.
    pub query: NavQuery,
}

/// A navigation query is well formed when the buffer it carries is.
pub open spec fn nav_wf(q: NavQuery) -> bool {
    match q {
        NavQuery::Normal(b) => crate::core_editor::line_buffer::buf_wf(b),
        _ => true,
    }
}

/// The cursor lies inside the log or just past its newest entry, and the
/// query carries a well-formed buffer.
pub open spec fn history_wf(st: HistoryState) -> bool {
    0 <= st.cursor <= st.entries.len() && nav_wf(st.query)
}

/// An append-only log of submitted lines with a navigation cursor and a
/// settable query (plain, prefix or substring).
#[derive(Debug)]
pub struct History {
    entries: Vec<String>,
    cursor: usize,
    query: HistoryNavigationQuery,
}

impl View for History {
    type V = HistoryState;

    closed spec fn view(&self) -> HistoryState {
        HistoryState {
            entries: self.entries@.map_values(|s: String| s@),
            cursor: self.cursor as int,
            query: self.query@,
        }
    }
}

impl History {
    /// The history invariant.
    pub open spec fn wf(&self) -> bool {
        history_wf(self@)
    }

    /// An empty history with a plain query and no selected entry.
    pub fn new() -> (h: History)
        ensures
            h.wf(),
            h@.entries == Seq::<Seq<char>>::empty(),
            h@.cursor == 0,
            h@.query == NavQuery::Normal(BufState { text: Seq::empty(), cur: 0 }),
    {
        let h = History {
            entries: Vec::new(),
            cursor: 0,
            query: HistoryNavigationQuery::Normal(LineBuffer::new()),
        };
        proof {
            assert(h@.entries =~= Seq::<Seq<char>>::empty());
        }
        h
    }

    /// Appends a line at the newest end and deselects: the cursor returns to
    /// the fresh position.
    pub fn append(&mut self, entry: String)
        requires
            old(self).wf(),
        ensures
            final(self)@.entries == old(self)@.entries.push(entry@),
            final(self)@.cursor == final(self)@.entries.len(),
            final(self)@.query == old(self)@.query,
            final(self).wf(),
    {
        self.entries.push(entry);
        self.cursor = self.entries.len();
        proof {
            assert(self@.entries =~= old(self)@.entries.push(self.entries@.last()@));
        }
    }

    /// Replaces the navigation query and deselects: the cursor returns to
    /// the fresh position.
    pub fn set_navigation(&mut self, navigation: HistoryNavigationQuery)
        requires
            nav_wf(navigation@),
            old(self).wf(),
        ensures
            final(self)@.entries == old(self)@.entries,
            final(self)@.cursor == final(self)@.entries.len(),
            final(self)@.query == navigation@,
            final(self).wf(),
    {
        self.query = navigation;
        self.cursor = self.entries.len();
    }

    /// The active navigation query.
    pub fn get_navigation(&self) -> (q: HistoryNavigationQuery)
        ensures
            q@ == self@.query,
    {
        self.query.clone()
    }

    /// The entry under the cursor, or nothing at the fresh position.
    pub fn string_at_cursor(&self) -> (r: Option<String>)
        requires
            self.wf(),
        ensures
            match r {
                Some(s) => self@.cursor < self@.entries.len() && s@ == self@.entries[self@.cursor],
                None => self@.cursor == self@.entries.len(),
            },
    {
        if self.cursor < self.entries.len() {
            Some(self.entries[self.cursor].clone())
        } else {
            None
        }
    }

    /// All stored lines, oldest first.
    pub fn iter_chronologic(&self) -> (r: &Vec<String>)
        ensures
            r@.len() == self@.entries.len(),
            forall|i: int| 0 <= i < r@.len() ==> #[trigger] r@[i]@ == self@.entries[i],
    {
        &self.entries
    }

    /// Steps the cursor back to the nearest older entry that matches the
    /// query; it stays put when no older entry matches.
    pub fn back(&mut self)
        requires
            old(self).wf(),
        ensures
            final(self)@.entries == old(self)@.entries,
            final(self)@.query == old(self)@.query,
            final(self)@.cursor == back_cursor(
                old(self)@.query,
                old(self)@.entries,
                old(self)@.cursor,
            ),
            final(self).wf(),
    {
        let mut j = self.cursor;
        while j > 0
            invariant
                self == old(self),
                old(self).wf(),
                j <= self@.cursor <= self@.entries.len(),
                scan_back(self@.query, self@.entries, self@.cursor, self@.cursor) == scan_back(
                    self@.query,
                    self@.entries,
                    j as int,
                    self@.cursor,
                ),
            decreases j,
        {
            if query_matches_exec(&self.query, &self.entries[j - 1]) {
                self.cursor = j - 1;
                return ;
            }
            j = j - 1;
        }
    }

    /// Steps the cursor forward to the nearest newer entry that matches the
    /// query; it lands on the fresh position when no newer entry matches.
    pub fn forward(&mut self)
        requires
            old(self).wf(),
        ensures
            final(self)@.entries == old(self)@.entries,
            final(self)@.query == old(self)@.query,
            final(self)@.cursor == forward_cursor(
                old(self)@.query,
                old(self)@.entries,
                old(self)@.cursor,
            ),
            final(self).wf(),
    {
        let n = self.entries.len();
        let mut j = self.cursor;
        if j >= n {
            return ;
        }
        j = j + 1;
        while j < n
            invariant
                self == old(self),
                old(self).wf(),
                old(self)@.cursor < j <= n,
                old(self)@.cursor < n,
                n == self@.entries.len(),
                scan_fwd(self@.query, self@.entries, old(self)@.cursor + 1) == scan_fwd(
                    self@.query,
                    self@.entries,
                    j as int,
                ),
            decreases n - j,
        {
            if query_matches_exec(&self.query, &self.entries[j]) {
                self.cursor = j;
                return ;
            }
            j = j + 1;
        }
        self.cursor = n;
    }
}

/// The greatest position `j' < j` holding a matching entry, or `orig` when
/// there is none.
pub open spec fn scan_back(q: NavQuery, entries: Seq<Seq<char>>, j: int, orig: int) -> int
    decreases j,
{
    if j <= 0 {
        orig
    } else if query_matches(q, entries[j - 1]) {
        j - 1
    } else {
        scan_back(q, entries, j - 1, orig)
    }
}

/// Where the cursor lands when stepping back from `cursor`: the nearest
/// older matching entry, or `cursor` itself when no older entry matches.
pub open spec fn back_cursor(q: NavQuery, entries: Seq<Seq<char>>, cursor: int) -> int {
    scan_back(q, entries, cursor, cursor)
}

/// The least position `j' >= j` holding a matching entry, or the fresh
/// position when there is none.
pub open spec fn scan_fwd(q: NavQuery, entries: Seq<Seq<char>>, j: int) -> int
    decreases entries.len() - j,
{
    if j < 0 || j >= entries.len() {
        entries.len() as int
    } else if query_matches(q, entries[j]) {
        j
    } else {
        scan_fwd(q, entries, j + 1)
    }
}

/// Where the cursor lands when stepping forward from `cursor`: the nearest
/// newer matching entry, or the fresh position when no newer entry matches.
pub open spec fn forward_cursor(q: NavQuery, entries: Seq<Seq<char>>, cursor: int) -> int {
    if cursor >= entries.len() {
        entries.len() as int
    } else {
        scan_fwd(q, entries, cursor + 1)
    }
}

impl Default for History {
    /// The default history is empty: see [`History::new`].
    fn default() -> (h: History)
        ensures
            h.wf(),
            h@.entries == Seq::<Seq<char>>::empty(),
            h@.cursor == 0,
            h@.query == NavQuery::Normal(BufState { text: Seq::empty(), cur: 0 }),
    {
        History::new()
    }
}

/// Whether the entry satisfies the query.
fn query_matches_exec(q: &HistoryNavigationQuery, entry: &String) -> (r: bool)
    ensures
        r == query_matches(q@, entry@),
{
    match q {
        HistoryNavigationQuery::Normal(_) => true,
        HistoryNavigationQuery::PrefixSearch(p) => str_starts_with(entry.as_str(), p.as_str()),
        HistoryNavigationQuery::SubstringSearch(n) => str_contains(entry.as_str(), n.as_str()),
    }
}

} // verus!
