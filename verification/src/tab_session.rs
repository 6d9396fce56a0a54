//! Saving the tabs of a workspace and restoring them: which tabs a session
//! records, page by page, and what restoring one selects.

use vstd::prelude::*;
use crate::models::DatabaseObject;
use crate::tab_strip::{
    browse_ids, first_position, next_after, query_ids_distinct, BrowseTabEntry, TabStrip,
};
use crate::text::{decimal, parse_unsigned_spec};
use crate::workspace::tab_id_from_widget_name;

verus! {

/// A tab of a saved session.
#[derive(Debug)]
pub enum SessionTab {
    Query { id: u64 },
    Browse { id: u64, object: DatabaseObject },
}

/// The tab that was selected when a session was saved.
#[derive(Clone, Copy, Debug, PartialEq, Eq, Structural)]
pub enum SessionTabId {
    Query(u64),
    Browse(u64),
}

/// What restoring a session did besides adding its tabs.
#[derive(Clone, Copy, Debug, PartialEq, Eq, Structural)]
pub struct SessionRestored {
    /// The tab to select.
    pub selected: SessionTabId,
    /// An empty query tab added because the session selects no query tab
    /// and holds none.
    pub added_query_tab: Option<u64>,
    /// The selected table tab's browser must be created now.
    pub load_selected: bool,
}

/// The id a tab page's name carries after `prefix`.
pub open spec fn page_tab_id(name: Seq<char>, prefix: Seq<char>) -> Option<u64> {
    if prefix.len() <= name.len() && name.take(prefix.len() as int) == prefix {
        match parse_unsigned_spec(name.skip(prefix.len() as int), u64::MAX as nat) {
            Some(v) => Some(v as u64),
            None => None,
        }
    } else {
        None
    }
}

/// The saved form of the tab whose page is named `name`, when the strip
/// holds such a tab.
pub open spec fn saved_tab_of_page(s: TabStrip, name: Seq<char>) -> Option<SessionTab> {
    let q = page_tab_id(name, "query-tab-"@);
    let b = page_tab_id(name, "browse-tab-"@);
    if q is Some && s.query_tabs@.contains(q->0) {
        Some(SessionTab::Query { id: q->0 })
    } else if b is Some && first_position(browse_ids(s.browse_tabs@), b->0) is Some {
        Some(
            SessionTab::Browse {
                id: b->0,
                object: s.browse_tabs@[first_position(browse_ids(s.browse_tabs@), b->0)->0].object,
            },
        )
    } else {
        None
    }
}

/// The tabs a session records for pages named `names`, in page order.
pub open spec fn saved_tabs(s: TabStrip, names: Seq<Seq<char>>) -> Seq<SessionTab>
    decreases names.len(),
{
    if names.len() == 0 {
        Seq::empty()
    } else {
        let rest = saved_tabs(s, names.drop_last());
        match saved_tab_of_page(s, names.last()) {
            Some(t) => rest.push(t),
            None => rest,
        }
    }
}

/// The ids of the query tabs of a session, in order.
pub open spec fn session_query_ids(tabs: Seq<SessionTab>) -> Seq<u64>
    decreases tabs.len(),
{
    if tabs.len() == 0 {
        Seq::empty()
    } else {
        let rest = session_query_ids(tabs.drop_last());
        match tabs.last() {
            SessionTab::Query { id } => rest.push(id),
            SessionTab::Browse { .. } => rest,
        }
    }
}

/// The table tabs of a session, in order, as restored: not yet loaded.
pub open spec fn session_browse_tabs(tabs: Seq<SessionTab>) -> Seq<BrowseTabEntry>
    decreases tabs.len(),
{
    if tabs.len() == 0 {
        Seq::empty()
    } else {
        let rest = session_browse_tabs(tabs.drop_last());
        match tabs.last() {
            SessionTab::Query { .. } => rest,
            SessionTab::Browse { id, object } => rest.push(
                BrowseTabEntry { id, object, loaded: false },
            ),
        }
    }
}

/// The next free id after tabs with `ids` were added, one after the other.
pub open spec fn next_after_ids(next: u64, ids: Seq<u64>) -> u64
    decreases ids.len(),
{
    if ids.len() == 0 {
        next
    } else {
        next_after(next_after_ids(next, ids.drop_last()), ids.last())
    }
}

/// The tab a restored session selects without adding a query tab, if any.
pub open spec fn restored_selection(tabs: Seq<SessionTab>, active: Option<SessionTabId>) -> Option<
    SessionTabId,
> {
    let q = session_query_ids(tabs);
    let b = browse_ids(session_browse_tabs(tabs));
    let fallback = if q.len() > 0 {
        Some(SessionTabId::Query(q.last()))
    } else {
        None
    };
    match active {
        Some(SessionTabId::Query(id)) => if q.contains(id) {
            Some(SessionTabId::Query(id))
        } else {
            fallback
        },
        Some(SessionTabId::Browse(id)) => if b.contains(id) {
            Some(SessionTabId::Browse(id))
        } else {
            fallback
        },
        None => fallback,
    }
}

/// The name of the page that shows a session tab.
pub open spec fn session_page_name(t: SessionTab) -> Seq<char> {
    match t {
        SessionTab::Query { id } => "query-tab-"@ + decimal(id as nat),
        SessionTab::Browse { id, .. } => "browse-tab-"@ + decimal(id as nat),
    }
}

/// The strip holds the tabs of a session: each of its query tabs, and
/// exactly its table tabs, in order.
pub open spec fn holds_session_tabs(s: TabStrip, tabs: Seq<SessionTab>) -> bool {
    let b = session_browse_tabs(tabs);
    &&& forall|id: u64| #[trigger] session_query_ids(tabs).contains(id) ==> s.query_tabs@.contains(id)
    &&& s.browse_tabs@.len() == b.len()
    &&& forall|j: int|
        0 <= j < b.len() ==> (#[trigger] s.browse_tabs@[j]).id == b[j].id && s.browse_tabs@[j].object
            == b[j].object
}

proof fn lemma_browse_ids_push(tabs: Seq<BrowseTabEntry>, t: BrowseTabEntry)
    ensures
        browse_ids(tabs.push(t)) == browse_ids(tabs).push(t.id),
{
    assert(browse_ids(tabs.push(t)) =~= browse_ids(tabs).push(t.id));
}

/// The first position of an id that occurs once is where it occurs.
proof fn lemma_first_position_of_distinct(ids: Seq<u64>, m: int)
    requires
        0 <= m < ids.len(),
        query_ids_distinct(ids),
    ensures
        first_position(ids, ids[m]) == Some(m),
{
    let id = ids[m];
    assert(0 <= m < ids.len() && ids[m] == id);
    let w = choose|k: int| 0 <= k < ids.len() && ids[k] == id && forall|j: int| 0 <= j < k ==> ids[j] != id;
    if w < m {
        assert(ids[w] != ids[m]);
    } else if w > m {
        assert(ids[m] != ids[w]);
    }
}

/// Each query tab of a session is among its query ids; each table tab is
/// among its restored table tabs.
proof fn lemma_session_tab_kept(tabs: Seq<SessionTab>, k: int)
    requires
        0 <= k < tabs.len(),
    ensures
        (tabs[k] matches SessionTab::Query { id } ==> session_query_ids(tabs).contains(id)),
        (tabs[k] matches SessionTab::Browse { id, object } ==> exists|m: int|
            0 <= m < session_browse_tabs(tabs).len() && session_browse_tabs(tabs)[m]
                == (BrowseTabEntry { id, object, loaded: false })),
    decreases tabs.len(),
{
    let rest = tabs.drop_last();
    if k == tabs.len() - 1 {
        match tabs.last() {
            SessionTab::Query { id } => {
                let q = session_query_ids(tabs);
                assert(q[q.len() - 1] == id);
            },
            SessionTab::Browse { id, object } => {
                let b = session_browse_tabs(tabs);
                assert(b[b.len() - 1] == BrowseTabEntry { id, object, loaded: false });
            },
        }
    } else {
        lemma_session_tab_kept(rest, k);
        assert(rest[k] == tabs[k]);
        match tabs[k] {
            SessionTab::Query { id } => {
                let q0 = session_query_ids(rest);
                let i = choose|i: int| 0 <= i < q0.len() && q0[i] == id;
                match tabs.last() {
                    SessionTab::Query { id: last } => {
                        assert(session_query_ids(tabs)[i] == id);
                    },
                    SessionTab::Browse { .. } => {
                        assert(session_query_ids(tabs)[i] == id);
                    },
                }
            },
            SessionTab::Browse { id, object } => {
                let b0 = session_browse_tabs(rest);
                let m = choose|m: int|
                    0 <= m < b0.len() && b0[m] == BrowseTabEntry { id, object, loaded: false };
                assert(session_browse_tabs(tabs)[m] == BrowseTabEntry { id, object, loaded: false });
            },
        }
    }
}

/// The page of a session tab names that tab, read back against a strip that
/// holds the session.
proof fn lemma_page_of_session_tab(s: TabStrip, tabs: Seq<SessionTab>, k: int)
    requires
        0 <= k < tabs.len(),
        holds_session_tabs(s, tabs),
        query_ids_distinct(browse_ids(session_browse_tabs(tabs))),
    ensures
        saved_tab_of_page(s, session_page_name(tabs[k])) == Some(tabs[k]),
{
    reveal_strlit("query-tab-");
    reveal_strlit("browse-tab-");
    let qp = "query-tab-"@;
    let bp = "browse-tab-"@;
    lemma_session_tab_kept(tabs, k);
    match tabs[k] {
        SessionTab::Query { id } => {
            crate::workspace::widget_name_gives_back_the_id(qp, id);
            let name = session_page_name(tabs[k]);
            assert(page_tab_id(name, qp) == Some(id));
            assert(s.query_tabs@.contains(id));
        },
        SessionTab::Browse { id, object } => {
            crate::workspace::widget_name_gives_back_the_id(bp, id);
            let name = session_page_name(tabs[k]);
            assert(name[0] == 'b');
            assert(name.take(qp.len() as int)[0] == 'b');
            assert(name.take(qp.len() as int) != qp);
            assert(page_tab_id(name, qp) is None);
            assert(page_tab_id(name, bp) == Some(id));
            let b = session_browse_tabs(tabs);
            let m = choose|m: int| 0 <= m < b.len() && b[m] == BrowseTabEntry { id, object, loaded: false };
            let ids = browse_ids(s.browse_tabs@);
            assert(ids =~= browse_ids(b));
            assert(ids[m] == id);
            lemma_first_position_of_distinct(ids, m);
            assert(s.browse_tabs@[m].object == object);
        },
    }
}

/// Saving a restored session gives it back: read page by page against a
/// strip that holds a session whose table tabs have distinct ids, the pages
/// of the session's tabs record exactly those tabs, in order.
pub proof fn restored_session_saves_back(s: TabStrip, tabs: Seq<SessionTab>)
    requires
        holds_session_tabs(s, tabs),
        query_ids_distinct(browse_ids(session_browse_tabs(tabs))),
    ensures
        saved_tabs(s, tabs.map_values(|t: SessionTab| session_page_name(t))) == tabs,
{
    lemma_saved_prefix(s, tabs, tabs.len() as int);
    assert(tabs.take(tabs.len() as int) =~= tabs);
    assert(tabs.map_values(|t: SessionTab| session_page_name(t)) =~= tabs.take(
        tabs.len() as int,
    ).map_values(|t: SessionTab| session_page_name(t)));
}

proof fn lemma_saved_prefix(s: TabStrip, tabs: Seq<SessionTab>, n: int)
    requires
        0 <= n <= tabs.len(),
        holds_session_tabs(s, tabs),
        query_ids_distinct(browse_ids(session_browse_tabs(tabs))),
    ensures
        saved_tabs(s, tabs.take(n).map_values(|t: SessionTab| session_page_name(t))) == tabs.take(n),
    decreases n,
{
    let names = tabs.take(n).map_values(|t: SessionTab| session_page_name(t));
    if n == 0 {
        assert(names.len() == 0);
        assert(tabs.take(0) =~= Seq::<SessionTab>::empty());
    } else {
        lemma_saved_prefix(s, tabs, n - 1);
        assert(names.drop_last() =~= tabs.take(n - 1).map_values(
            |t: SessionTab| session_page_name(t),
        ));
        assert(names.last() == session_page_name(tabs[n - 1]));
        lemma_page_of_session_tab(s, tabs, n - 1);
        assert(tabs.take(n) =~= tabs.take(n - 1).push(tabs[n - 1]));
    }
}

fn copy_session_object(object: &DatabaseObject) -> (r: DatabaseObject)
    ensures
        r == *object,
{
    object.copied()
}

/// An id occurs in a sequence exactly when it has a first position there.
proof fn lemma_contains_iff_first_position(ids: Seq<u64>, id: u64)
    ensures
        ids.contains(id) <==> first_position(ids, id) is Some,
{
    assert(ids.contains(id) <==> exists|k: int| 0 <= k < ids.len() && ids[k] == id);
}

/// The table tabs of a restored session start unloaded.
proof fn lemma_session_browse_tabs_unloaded(tabs: Seq<SessionTab>)
    ensures
        forall|j: int|
            0 <= j < session_browse_tabs(tabs).len() ==> !(#[trigger] session_browse_tabs(tabs)[j]).loaded,
    decreases tabs.len(),
{
    if tabs.len() > 0 {
        lemma_session_browse_tabs_unloaded(tabs.drop_last());
    }
}

impl TabStrip {
    /// The saved form of the tab whose page is named `name`: the query tab
    /// its id names, else the table tab its id names, if the strip has one.
    pub fn saved_tab_for_page(&self, name: &str) -> (r: Option<SessionTab>)
        ensures
            r == saved_tab_of_page(*self, name@),
    {
        match tab_id_from_widget_name(Some(name), "query-tab-") {
            Some(id) => {
                proof {
                    lemma_contains_iff_first_position(self.query_tabs@, id);
                }
                if self.query_tab_position(id).is_some() {
                    return Some(SessionTab::Query { id });
                }
            },
            None => {},
        }
        match tab_id_from_widget_name(Some(name), "browse-tab-") {
            Some(id) => match self.browse_tab_position(id) {
                Some(index) => Some(
                    SessionTab::Browse {
                        id,
                        object: copy_session_object(&self.browse_tabs[index].object),
                    },
                ),
                None => None,
            },
            None => None,
        }
    }

    /// The tabs a session records, in the order of the window's pages, given
    /// the names of the pages: a query page whose id names a query tab, or a
    /// table page whose id names a table tab. Other pages are left out.
    pub fn session_tabs(&self, page_names: &Vec<String>) -> (r: Vec<SessionTab>)
        ensures
            r@ == saved_tabs(*self, page_names@.map_values(|n: String| n@)),
    {
        let ghost names = page_names@.map_values(|n: String| n@);
        let mut r: Vec<SessionTab> = Vec::new();
        let mut i: usize = 0;
        while i < page_names.len()
            invariant
                i <= page_names@.len(),
                names == page_names@.map_values(|n: String| n@),
                r@ == saved_tabs(*self, names.take(i as int)),
            decreases page_names@.len() - i,
        {
            let saved = self.saved_tab_for_page(page_names[i].as_str());
            proof {
                assert(names.take(i + 1).drop_last() =~= names.take(i as int));
                assert(names.take(i + 1).last() == page_names@[i as int]@);
            }
            match saved {
                Some(t) => r.push(t),
                None => {},
            }
            i = i + 1;
        }
        proof {
            assert(names.take(page_names@.len() as int) =~= names);
        }
        r
    }

    /// Replaces the tabs with those of a saved session, in order, and chooses
    /// the tab to select: the session's selected tab when it is among them,
    /// else the active query tab; an empty query tab is added when there is
    /// none. The selected table tab's browser is created when there is a
    /// connection.
    #[verifier::rlimit(40)]
    pub fn restore_session(
        &mut self,
        tabs: &Vec<SessionTab>,
        active: Option<SessionTabId>,
        connected: bool,
    ) -> (r: SessionRestored)
        ensures
            ({
                let q = session_query_ids(tabs@);
                let b = session_browse_tabs(tabs@);
                let next_q = next_after_ids(old(self).next_query_tab_id, q);
                &&& match restored_selection(tabs@, active) {
                    Some(sel) => r.selected == sel && r.added_query_tab is None,
                    None => r.added_query_tab == Some(next_q) && r.selected == SessionTabId::Query(
                        next_q,
                    ),
                }
                &&& final(self).query_tabs@ == match r.added_query_tab {
                    Some(n) => q.push(n),
                    None => q,
                }
                &&& final(self).active_query_tab_id == match r.selected {
                    SessionTabId::Query(id) => id,
                    SessionTabId::Browse(_) => if q.len() > 0 {
                        q.last()
                    } else {
                        0
                    },
                }
                &&& final(self).next_query_tab_id == match r.added_query_tab {
                    Some(n) => next_after(next_q, n),
                    None => next_q,
                }
                &&& final(self).next_browse_tab_id == next_after_ids(
                    old(self).next_browse_tab_id,
                    browse_ids(b),
                )
                &&& r.load_selected == (connected && r.selected is Browse)
                &&& final(self).browse_tabs@.len() == b.len()
                &&& forall|j: int|
                    0 <= j < b.len() ==> (#[trigger] final(self).browse_tabs@[j]).id == b[j].id
                        && final(self).browse_tabs@[j].object == b[j].object
                        && final(self).browse_tabs@[j].loaded == match r.selected {
                        SessionTabId::Browse(id) => r.load_selected && first_position(
                            browse_ids(b),
                            id,
                        ) == Some(j),
                        SessionTabId::Query(_) => false,
                    }
            }),
            holds_session_tabs(*final(self), tabs@),
    {
        self.clear();
        let mut i: usize = 0;
        while i < tabs.len()
            invariant
                i <= tabs@.len(),
                self.query_tabs@ == session_query_ids(tabs@.take(i as int)),
                self.browse_tabs@ == session_browse_tabs(tabs@.take(i as int)),
                self.active_query_tab_id == (if session_query_ids(tabs@.take(i as int)).len() > 0 {
                    session_query_ids(tabs@.take(i as int)).last()
                } else {
                    0
                }),
                self.next_query_tab_id == next_after_ids(
                    old(self).next_query_tab_id,
                    session_query_ids(tabs@.take(i as int)),
                ),
                self.next_browse_tab_id == next_after_ids(
                    old(self).next_browse_tab_id,
                    browse_ids(session_browse_tabs(tabs@.take(i as int))),
                ),
            decreases tabs@.len() - i,
        {
            proof {
                assert(tabs@.take(i + 1).drop_last() =~= tabs@.take(i as int));
                assert(tabs@.take(i + 1).last() == tabs@[i as int]);
            }
            match &tabs[i] {
                SessionTab::Query { id } => {
                    proof {
                        let before = session_query_ids(tabs@.take(i as int));
                        assert(before.push(*id).drop_last() =~= before);
                    }
                    self.add_query_tab_with_id(*id);
                },
                SessionTab::Browse { id, object } => {
                    proof {
                        lemma_browse_ids_push(
                            session_browse_tabs(tabs@.take(i as int)),
                            BrowseTabEntry { id: *id, object: *object, loaded: false },
                        );
                        let before = browse_ids(session_browse_tabs(tabs@.take(i as int)));
                        assert(before.push(*id).drop_last() =~= before);
                    }
                    self.add_browse_tab_with_id(*id, copy_session_object(object), false);
                },
            }
            i = i + 1;
        }
        proof {
            assert(tabs@.take(tabs@.len() as int) =~= tabs@);
            lemma_session_browse_tabs_unloaded(tabs@);
        }
        let ghost q = session_query_ids(tabs@);
        let ghost b = session_browse_tabs(tabs@);
        let mut chosen: Option<SessionTabId> = None;
        match active {
            Some(SessionTabId::Query(id)) => {
                proof {
                    lemma_contains_iff_first_position(self.query_tabs@, id);
                }
                if self.query_tab_position(id).is_some() {
                    self.active_query_tab_id = id;
                    chosen = Some(SessionTabId::Query(id));
                }
            },
            Some(SessionTabId::Browse(id)) => {
                proof {
                    lemma_contains_iff_first_position(browse_ids(self.browse_tabs@), id);
                }
                if self.browse_tab_position(id).is_some() {
                    chosen = Some(SessionTabId::Browse(id));
                }
            },
            None => {},
        }
        let mut added: Option<u64> = None;
        let selected = match chosen {
            Some(sel) => sel,
            None => {
                proof {
                    lemma_contains_iff_first_position(self.query_tabs@, self.active_query_tab_id);
                    if q.len() > 0 {
                        assert(q[q.len() - 1] == q.last());
                    }
                }
                if self.query_tab_position(self.active_query_tab_id).is_none() {
                    let n = self.add_query_tab();
                    added = Some(n);
                    SessionTabId::Query(n)
                } else {
                    SessionTabId::Query(self.active_query_tab_id)
                }
            },
        };
        let load = match selected {
            SessionTabId::Browse(id) => self.load_browse_tab_if_needed(id, connected),
            SessionTabId::Query(_) => false,
        };
        proof {
            assert forall|id: u64| #[trigger] q.contains(id) implies self.query_tabs@.contains(id) by {
                let k = choose|k: int| 0 <= k < q.len() && q[k] == id;
                assert(self.query_tabs@[k] == id);
            }
        }
        SessionRestored { selected, added_query_tab: added, load_selected: load }
    }
}
} // verus!
