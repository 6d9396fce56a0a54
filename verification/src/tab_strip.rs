//! The tabs of the workspace: query tabs and table tabs, which one is
//! active, and what closing, renaming and dropping do to them.
//!
//! The strip holds ids and objects only; the application keeps the widgets
//! of each tab under its id.

use vstd::prelude::*;
use crate::models::{DatabaseObject, same_object};

verus! {

/// A tab that browses a table or view.
#[derive(Debug)]
pub struct BrowseTabEntry {
    pub id: u64,
    pub object: DatabaseObject,
    /// The tab's browser was created (tabs restored from a session load when
    /// first selected).
    pub loaded: bool,
}

/// The tabs of a workspace, in the order they were opened.
#[derive(Debug)]
pub struct TabStrip {
    pub query_tabs: Vec<u64>,
    pub browse_tabs: Vec<BrowseTabEntry>,
    pub active_query_tab_id: u64,
    pub next_query_tab_id: u64,
    pub next_browse_tab_id: u64,
}

/// What closing a query tab did.
#[derive(Clone, Copy, Debug, PartialEq, Eq, Structural)]
pub enum QueryTabClosed {
    /// The tab was kept: it is the last tab, or no tab has that id.
    Kept,
    /// The tab was closed; when it was the active one, `select` names the
    /// query tab that took its place.
    Closed { select: Option<u64> },
}

/// What opening a table did.
#[derive(Clone, Copy, Debug, PartialEq, Eq, Structural)]
pub enum TableTabOpened {
    /// Nothing: no connection.
    Nothing,
    /// A tab already browses the table: select it, create its browser when
    /// `load` says so, and refresh it when `refresh` says so.
    SelectExisting { tab_id: u64, load: bool, refresh: bool },
    /// A new tab was added with this id: create its browser and select it.
    Added { tab_id: u64 },
}

/// The larger of `id + 1` (wrapping) and `next`: the next free id after a
/// tab with `id` was added.
pub open spec fn next_after(next: u64, id: u64) -> u64 {
    let following = if id == u64::MAX {
        0
    } else {
        (id + 1) as u64
    };
    if following > next {
        following
    } else {
        next
    }
}

/// The position of the first entry of `ids` equal to `id`.
pub open spec fn first_position(ids: Seq<u64>, id: u64) -> Option<int> {
    if exists|i: int| 0 <= i < ids.len() && ids[i] == id {
        Some(choose|i: int| 0 <= i < ids.len() && ids[i] == id && forall|j: int| 0 <= j < i ==> ids[j] != id)
    } else {
        None
    }
}

/// The position of the first table tab browsing `object`.
pub open spec fn tab_of_object(tabs: Seq<BrowseTabEntry>, object: DatabaseObject) -> Option<int> {
    if exists|i: int| 0 <= i < tabs.len() && same_object(tabs[i].object, object) {
        Some(
            choose|i: int|
                0 <= i < tabs.len() && same_object(tabs[i].object, object) && forall|j: int|
                    0 <= j < i ==> !same_object(tabs[j].object, object),
        )
    } else {
        None
    }
}

/// The ids of `tabs`.
pub open spec fn browse_ids(tabs: Seq<BrowseTabEntry>) -> Seq<u64> {
    tabs.map_values(|t: BrowseTabEntry| t.id)
}

/// The tab does not browse `object`.
pub open spec fn keeps_tab(object: DatabaseObject) -> spec_fn(BrowseTabEntry) -> bool {
    |t: BrowseTabEntry| !same_object(t.object, object)
}

/// The tab browses `object`.
pub open spec fn shows_object(object: DatabaseObject) -> spec_fn(BrowseTabEntry) -> bool {
    |t: BrowseTabEntry| same_object(t.object, object)
}

/// The tab is loaded and browses `object`.
pub open spec fn shows_loaded(object: DatabaseObject) -> spec_fn(BrowseTabEntry) -> bool {
    |t: BrowseTabEntry| t.loaded && same_object(t.object, object)
}

/// Each query tab id is below the next id, so ids handed out later are new.
pub open spec fn query_ids_below_next(s: TabStrip) -> bool {
    forall|i: int| 0 <= i < s.query_tabs@.len() ==> #[trigger] s.query_tabs@[i] < s.next_query_tab_id
}

/// No two query tabs share an id.
pub open spec fn query_ids_distinct(ids: Seq<u64>) -> bool {
    forall|i: int, j: int| 0 <= i < j < ids.len() ==> #[trigger] ids[i] != #[trigger] ids[j]
}

/// Filtering one more element of `s` adds it when it passes.
proof fn lemma_filter_step<A>(s: Seq<A>, i: int, p: spec_fn(A) -> bool)
    requires
        0 <= i < s.len(),
    ensures
        s.take(i + 1).filter(p) == (if p(s[i]) {
            s.take(i).filter(p).push(s[i])
        } else {
            s.take(i).filter(p)
        }),
{
    reveal(Seq::filter);
    let t = s.take(i + 1);
    assert(t.drop_last() =~= s.take(i));
    assert(t.last() == s[i]);
}

fn following_tab_id(next: u64, id: u64) -> (r: u64)
    ensures
        r == next_after(next, id),
{
    let following = id.wrapping_add(1);
    if following > next {
        following
    } else {
        next
    }
}

fn copy_object(object: &DatabaseObject) -> (r: DatabaseObject)
    ensures
        r == *object,
{
    object.copied()
}

impl TabStrip {
    /// A strip without tabs.
    pub fn new() -> (r: TabStrip)
        ensures
            r.query_tabs@.len() == 0,
            r.browse_tabs@.len() == 0,
            r.active_query_tab_id == 0,
            r.next_query_tab_id == 0,
            r.next_browse_tab_id == 0,
    {
        TabStrip {
            query_tabs: Vec::new(),
            browse_tabs: Vec::new(),
            active_query_tab_id: 0,
            next_query_tab_id: 0,
            next_browse_tab_id: 0,
        }
    }

    /// The number of tabs of both kinds.
    pub fn tab_count(&self) -> (r: usize)
        requires
            self.query_tabs@.len() + self.browse_tabs@.len() <= usize::MAX,
        ensures
            r == self.query_tabs@.len() + self.browse_tabs@.len(),
    {
        self.query_tabs.len() + self.browse_tabs.len()
    }

    /// Adds a query tab with `id` and makes it active.
    pub fn add_query_tab_with_id(&mut self, id: u64)
        ensures
            final(self).query_tabs@ == old(self).query_tabs@.push(id),
            final(self).browse_tabs@ == old(self).browse_tabs@,
            final(self).active_query_tab_id == id,
            final(self).next_query_tab_id == next_after(old(self).next_query_tab_id, id),
            final(self).next_browse_tab_id == old(self).next_browse_tab_id,
    {
        self.next_query_tab_id = following_tab_id(self.next_query_tab_id, id);
        self.active_query_tab_id = id;
        self.query_tabs.push(id);
    }

    /// Adds a query tab under the next free id, makes it active and returns
    /// its id.
    pub fn add_query_tab(&mut self) -> (id: u64)
        ensures
            id == old(self).next_query_tab_id,
            final(self).query_tabs@ == old(self).query_tabs@.push(id),
            final(self).browse_tabs@ == old(self).browse_tabs@,
            final(self).active_query_tab_id == id,
            final(self).next_query_tab_id == next_after(old(self).next_query_tab_id, id),
            final(self).next_browse_tab_id == old(self).next_browse_tab_id,
            query_ids_below_next(*old(self)) && query_ids_distinct(old(self).query_tabs@)
                && old(self).next_query_tab_id < u64::MAX ==> query_ids_below_next(*final(self))
                && query_ids_distinct(final(self).query_tabs@),
    {
        let id = self.next_query_tab_id;
        proof {
            if query_ids_below_next(*self) && query_ids_distinct(self.query_tabs@) && id < u64::MAX {
                lemma_added_id_is_fresh(self.query_tabs@, id);
            }
        }
        self.add_query_tab_with_id(id);
        id
    }

    /// A query tab was selected: it becomes the active query tab when the
    /// strip has it. Returns whether it did.
    pub fn select_query_tab(&mut self, tab_id: u64) -> (selected: bool)
        ensures
            selected == (first_position(old(self).query_tabs@, tab_id) is Some),
            final(self).active_query_tab_id == (if selected {
                tab_id
            } else {
                old(self).active_query_tab_id
            }),
            final(self).query_tabs@ == old(self).query_tabs@,
            final(self).browse_tabs@ == old(self).browse_tabs@,
            final(self).next_query_tab_id == old(self).next_query_tab_id,
            final(self).next_browse_tab_id == old(self).next_browse_tab_id,
    {
        if self.query_tab_position(tab_id).is_some() {
            self.active_query_tab_id = tab_id;
            true
        } else {
            false
        }
    }

    /// The position of the first query tab with `id`.
    pub fn query_tab_position(&self, id: u64) -> (r: Option<usize>)
        ensures
            match r {
                Some(i) => first_position(self.query_tabs@, id) == Some(i as int) && i
                    < self.query_tabs@.len() && self.query_tabs@[i as int] == id,
                None => first_position(self.query_tabs@, id) is None,
            },
    {
        let mut i: usize = 0;
        while i < self.query_tabs.len()
            invariant
                i <= self.query_tabs@.len(),
                forall|j: int| 0 <= j < i ==> self.query_tabs@[j] != id,
            decreases self.query_tabs@.len() - i,
        {
            if self.query_tabs[i] == id {
                proof {
                    let ids = self.query_tabs@;
                    assert(0 <= i < ids.len() && ids[i as int] == id);
                    let w = choose|k: int| 0 <= k < ids.len() && ids[k] == id && forall|j: int| 0 <= j < k ==> ids[j] != id;
                    if w < i {
                        assert(ids[w] != id);
                    } else if w > i {
                        assert(ids[i as int] != id);
                    }
                }
                return Some(i);
            }
            i = i + 1;
        }
        None
    }

    /// Closes the query tab with `tab_id`, unless it is the last tab of the
    /// window. When the active tab closes, the tab that took its position
    /// (or the new last one) becomes active.
    pub fn close_query_tab(&mut self, tab_id: u64) -> (r: QueryTabClosed)
        requires
            old(self).query_tabs@.len() + old(self).browse_tabs@.len() <= usize::MAX,
        ensures
            final(self).browse_tabs@ == old(self).browse_tabs@,
            final(self).next_query_tab_id == old(self).next_query_tab_id,
            final(self).next_browse_tab_id == old(self).next_browse_tab_id,
            (old(self).query_tabs@.len() + old(self).browse_tabs@.len() <= 1 || first_position(
                old(self).query_tabs@,
                tab_id,
            ) is None) ==> r == QueryTabClosed::Kept && final(self).query_tabs@
                == old(self).query_tabs@ && final(self).active_query_tab_id
                == old(self).active_query_tab_id,
            r is Closed ==> ({
                let i = first_position(old(self).query_tabs@, tab_id)->0;
                &&& final(self).query_tabs@ == old(self).query_tabs@.remove(i)
                &&& old(self).active_query_tab_id != tab_id ==> r == QueryTabClosed::Closed {
                    select: None,
                } && final(self).active_query_tab_id == old(self).active_query_tab_id
                &&& old(self).active_query_tab_id == tab_id && final(self).query_tabs@.len() == 0
                    ==> r == QueryTabClosed::Closed { select: None }
                    && final(self).active_query_tab_id == 0
                &&& old(self).active_query_tab_id == tab_id && final(self).query_tabs@.len() > 0
                    ==> ({
                    let k = if i < final(self).query_tabs@.len() {
                        i
                    } else {
                        final(self).query_tabs@.len() - 1
                    };
                    r == QueryTabClosed::Closed { select: Some(final(self).query_tabs@[k]) }
                        && final(self).active_query_tab_id == final(self).query_tabs@[k]
                })
            }),
            r is Kept ==> final(self).query_tabs@ == old(self).query_tabs@
                && final(self).active_query_tab_id == old(self).active_query_tab_id,
            old(self).query_tabs@.len() + old(self).browse_tabs@.len() > 1 && first_position(
                old(self).query_tabs@,
                tab_id,
            ) is Some ==> r is Closed,
            old(self).query_tabs@.len() + old(self).browse_tabs@.len() >= 1 ==> final(self).query_tabs@.len()
                + final(self).browse_tabs@.len() >= 1,
            r is Closed && old(self).active_query_tab_id == tab_id && final(self).query_tabs@.len()
                > 0 ==> final(self).query_tabs@.contains(final(self).active_query_tab_id),
    {
        if self.tab_count() <= 1 {
            return QueryTabClosed::Kept;
        }
        let index = match self.query_tab_position(tab_id) {
            Some(i) => i,
            None => {
                return QueryTabClosed::Kept;
            },
        };
        let removed_was_active = self.active_query_tab_id == tab_id;
        self.query_tabs.remove(index);
        if !removed_was_active {
            return QueryTabClosed::Closed { select: None };
        }
        if self.query_tabs.len() == 0 {
            self.active_query_tab_id = 0;
            QueryTabClosed::Closed { select: None }
        } else {
            let last = self.query_tabs.len() - 1;
            let next_index = if index < last {
                index
            } else {
                last
            };
            let next_id = self.query_tabs[next_index];
            self.active_query_tab_id = next_id;
            QueryTabClosed::Closed { select: Some(next_id) }
        }
    }

    /// The position of the first table tab with id `tab_id`.
    pub fn browse_tab_position(&self, tab_id: u64) -> (r: Option<usize>)
        ensures
            match r {
                Some(i) => first_position(browse_ids(self.browse_tabs@), tab_id) == Some(i as int)
                    && i < self.browse_tabs@.len() && self.browse_tabs@[i as int].id == tab_id,
                None => first_position(browse_ids(self.browse_tabs@), tab_id) is None,
            },
    {
        let ghost ids = browse_ids(self.browse_tabs@);
        let mut i: usize = 0;
        while i < self.browse_tabs.len()
            invariant
                i <= self.browse_tabs@.len(),
                ids == browse_ids(self.browse_tabs@),
                ids.len() == self.browse_tabs@.len(),
                forall|j: int| 0 <= j < i ==> ids[j] != tab_id,
            decreases self.browse_tabs@.len() - i,
        {
            if self.browse_tabs[i].id == tab_id {
                proof {
                    assert(ids[i as int] == tab_id);
                    let w = choose|k: int| 0 <= k < ids.len() && ids[k] == tab_id && forall|j: int| 0 <= j < k ==> ids[j] != tab_id;
                    if w < i {
                        assert(ids[w] != tab_id);
                    } else if w > i {
                        assert(ids[i as int] != tab_id);
                    }
                }
                return Some(i);
            }
            proof {
                assert(ids[i as int] == self.browse_tabs@[i as int].id);
            }
            i = i + 1;
        }
        None
    }

    /// Closes the table tab with `tab_id`, unless it is the last tab of the
    /// window. Returns whether it was closed.
    pub fn close_browse_tab(&mut self, tab_id: u64) -> (closed: bool)
        requires
            old(self).query_tabs@.len() + old(self).browse_tabs@.len() <= usize::MAX,
        ensures
            final(self).query_tabs@ == old(self).query_tabs@,
            final(self).active_query_tab_id == old(self).active_query_tab_id,
            final(self).next_query_tab_id == old(self).next_query_tab_id,
            final(self).next_browse_tab_id == old(self).next_browse_tab_id,
            closed == (old(self).query_tabs@.len() + old(self).browse_tabs@.len() > 1
                && first_position(browse_ids(old(self).browse_tabs@), tab_id) is Some),
            closed ==> final(self).browse_tabs@ == old(self).browse_tabs@.remove(
                first_position(browse_ids(old(self).browse_tabs@), tab_id)->0,
            ),
            !closed ==> final(self).browse_tabs@ == old(self).browse_tabs@,
            old(self).query_tabs@.len() + old(self).browse_tabs@.len() >= 1 ==> final(self).query_tabs@.len()
                + final(self).browse_tabs@.len() >= 1,
    {
        if self.tab_count() <= 1 {
            return false;
        }
        match self.browse_tab_position(tab_id) {
            Some(index) => {
                self.browse_tabs.remove(index);
                true
            },
            None => false,
        }
    }

    /// The position of the first table tab browsing `object`.
    pub fn tab_of(&self, object: &DatabaseObject) -> (r: Option<usize>)
        ensures
            match r {
                Some(i) => tab_of_object(self.browse_tabs@, *object) == Some(i as int) && i
                    < self.browse_tabs@.len() && same_object(self.browse_tabs@[i as int].object, *object),
                None => tab_of_object(self.browse_tabs@, *object) is None,
            },
    {
        let mut i: usize = 0;
        while i < self.browse_tabs.len()
            invariant
                i <= self.browse_tabs@.len(),
                forall|j: int| 0 <= j < i ==> !same_object(#[trigger] self.browse_tabs@[j].object, *object),
            decreases self.browse_tabs@.len() - i,
        {
            if self.browse_tabs[i].object.same_as(object) {
                proof {
                    let tabs = self.browse_tabs@;
                    let w = choose|k: int|
                        0 <= k < tabs.len() && same_object(tabs[k].object, *object) && forall|j: int|
                            0 <= j < k ==> !same_object(tabs[j].object, *object);
                    if w < i {
                        assert(!same_object(tabs[w].object, *object));
                    } else if w > i {
                        assert(!same_object(tabs[i as int].object, *object));
                    }
                }
                return Some(i);
            }
            i = i + 1;
        }
        None
    }

    /// Marks the table tab with `tab_id` as loaded when there is a
    /// connection and it was not; returns whether its browser must be
    /// created now.
    pub fn load_browse_tab_if_needed(&mut self, tab_id: u64, connected: bool) -> (load: bool)
        ensures
            final(self).query_tabs@ == old(self).query_tabs@,
            final(self).active_query_tab_id == old(self).active_query_tab_id,
            final(self).next_query_tab_id == old(self).next_query_tab_id,
            final(self).next_browse_tab_id == old(self).next_browse_tab_id,
            final(self).browse_tabs@.len() == old(self).browse_tabs@.len(),
            load == (connected && match first_position(browse_ids(old(self).browse_tabs@), tab_id) {
                Some(i) => !old(self).browse_tabs@[i].loaded,
                None => false,
            }),
            forall|j: int|
                0 <= j < old(self).browse_tabs@.len() ==> (#[trigger] final(self).browse_tabs@[j]).id
                    == old(self).browse_tabs@[j].id && final(self).browse_tabs@[j].object
                    == old(self).browse_tabs@[j].object && final(self).browse_tabs@[j].loaded == (
                    old(self).browse_tabs@[j].loaded || (load && first_position(
                        browse_ids(old(self).browse_tabs@),
                        tab_id,
                    ) == Some(j))),
    {
        if !connected {
            return false;
        }
        match self.browse_tab_position(tab_id) {
            None => false,
            Some(index) => {
                if self.browse_tabs[index].loaded {
                    return false;
                }
                let entry = BrowseTabEntry {
                    id: self.browse_tabs[index].id,
                    object: copy_object(&self.browse_tabs[index].object),
                    loaded: true,
                };
                self.browse_tabs.set(index, entry);
                true
            },
        }
    }

    /// Adds a table tab with `id` for `object`. When `load` is set the tab is
    /// created loaded, as when the user opens a table.
    pub fn add_browse_tab_with_id(&mut self, id: u64, object: DatabaseObject, load: bool)
        ensures
            final(self).browse_tabs@ == old(self).browse_tabs@.push(
                BrowseTabEntry { id, object, loaded: load },
            ),
            final(self).query_tabs@ == old(self).query_tabs@,
            final(self).active_query_tab_id == old(self).active_query_tab_id,
            final(self).next_query_tab_id == old(self).next_query_tab_id,
            final(self).next_browse_tab_id == next_after(old(self).next_browse_tab_id, id),
    {
        self.next_browse_tab_id = following_tab_id(self.next_browse_tab_id, id);
        self.browse_tabs.push(BrowseTabEntry { id, object, loaded: load });
    }

    /// Opens `object`: the tab that already browses it is selected (and its
    /// browser created or refreshed), otherwise a new loaded tab is added
    /// when there is a connection.
    #[verifier::rlimit(40)]
    pub fn open_table(&mut self, object: DatabaseObject, connected: bool) -> (r: TableTabOpened)
        ensures
            final(self).query_tabs@ == old(self).query_tabs@,
            final(self).active_query_tab_id == old(self).active_query_tab_id,
            final(self).next_query_tab_id == old(self).next_query_tab_id,
            match tab_of_object(old(self).browse_tabs@, object) {
                Some(i) => {
                    let tab = old(self).browse_tabs@[i];
                    &&& r == TableTabOpened::SelectExisting {
                        tab_id: tab.id,
                        load: connected && match first_position(
                            browse_ids(old(self).browse_tabs@),
                            tab.id,
                        ) {
                            Some(k) => !old(self).browse_tabs@[k].loaded,
                            None => false,
                        },
                        refresh: tab.loaded,
                    }
                    &&& final(self).browse_tabs@.len() == old(self).browse_tabs@.len()
                    &&& final(self).next_browse_tab_id == old(self).next_browse_tab_id
                },
                None => if connected {
                    &&& r == TableTabOpened::Added { tab_id: old(self).next_browse_tab_id }
                    &&& final(self).browse_tabs@ == old(self).browse_tabs@.push(
                        BrowseTabEntry { id: old(self).next_browse_tab_id, object, loaded: true },
                    )
                    &&& final(self).next_browse_tab_id == next_after(
                        old(self).next_browse_tab_id,
                        old(self).next_browse_tab_id,
                    )
                } else {
                    &&& r == TableTabOpened::Nothing
                    &&& final(self).browse_tabs@ == old(self).browse_tabs@
                    &&& final(self).next_browse_tab_id == old(self).next_browse_tab_id
                },
            },
    {
        match self.tab_of(&object) {
            Some(index) => {
                let tab_id = self.browse_tabs[index].id;
                let was_loaded = self.browse_tabs[index].loaded;
                let load = self.load_browse_tab_if_needed(tab_id, connected);
                TableTabOpened::SelectExisting { tab_id, load, refresh: was_loaded }
            },
            None => {
                if !connected {
                    return TableTabOpened::Nothing;
                }
                let id = self.next_browse_tab_id;
                self.add_browse_tab_with_id(id, object, true);
                TableTabOpened::Added { tab_id: id }
            },
        }
    }

    /// Gives every table tab that browses `object` the new name; returns the
    /// ids of those tabs, in order.
    pub fn rename_object(&mut self, object: &DatabaseObject, new_name: &str) -> (renamed_ids: Vec<
        u64,
    >)
        ensures
            final(self).query_tabs@ == old(self).query_tabs@,
            final(self).active_query_tab_id == old(self).active_query_tab_id,
            final(self).next_query_tab_id == old(self).next_query_tab_id,
            final(self).next_browse_tab_id == old(self).next_browse_tab_id,
            final(self).browse_tabs@.len() == old(self).browse_tabs@.len(),
            forall|j: int|
                0 <= j < old(self).browse_tabs@.len() ==> {
                    let before = old(self).browse_tabs@[j];
                    let after = #[trigger] final(self).browse_tabs@[j];
                    &&& after.id == before.id
                    &&& after.loaded == before.loaded
                    &&& if same_object(before.object, *object) {
                        after.object.schema == before.object.schema && after.object.kind
                            == before.object.kind && after.object.name@ == new_name@
                    } else {
                        after.object == before.object
                    }
                },
            renamed_ids@ == browse_ids(old(self).browse_tabs@.filter(shows_object(*object))),
    {
        let ghost old_tabs = self.browse_tabs@;
        let mut tabs: Vec<BrowseTabEntry> = Vec::new();
        let mut ids: Vec<u64> = Vec::new();
        let mut i: usize = 0;
        while i < self.browse_tabs.len()
            invariant
                i <= self.browse_tabs@.len(),
                self.browse_tabs@ == old_tabs,
                tabs@.len() == i,
                forall|j: int|
                    0 <= j < i ==> {
                        let before = old_tabs[j];
                        let after = #[trigger] tabs@[j];
                        &&& after.id == before.id
                        &&& after.loaded == before.loaded
                        &&& if same_object(before.object, *object) {
                            after.object.schema == before.object.schema && after.object.kind
                                == before.object.kind && after.object.name@ == new_name@
                        } else {
                            after.object == before.object
                        }
                    },
                ids@ == browse_ids(old_tabs.take(i as int).filter(shows_object(*object))),
            decreases self.browse_tabs@.len() - i,
        {
            let tab = &self.browse_tabs[i];
            let matches = tab.object.same_as(object);
            let object_now = if matches {
                DatabaseObject {
                    schema: tab.object.schema.clone(),
                    name: new_name.to_string(),
                    kind: tab.object.kind,
                }
            } else {
                copy_object(&tab.object)
            };
            tabs.push(BrowseTabEntry { id: tab.id, object: object_now, loaded: tab.loaded });
            if matches {
                ids.push(tab.id);
            }
            proof {
                lemma_filter_step(old_tabs, i as int, shows_object(*object));
                assert(browse_ids(old_tabs.take(i as int).filter(shows_object(*object)).push(
                    old_tabs[i as int],
                )) =~= browse_ids(old_tabs.take(i as int).filter(shows_object(*object))).push(
                    old_tabs[i as int].id,
                ));
            }
            i = i + 1;
        }
        proof {
            assert(old_tabs.take(old_tabs.len() as int) =~= old_tabs);
        }
        self.browse_tabs = tabs;
        ids
    }

    /// The ids of the loaded table tabs that browse `object`, in order: the
    /// tabs whose browsers reload after the object changed.
    pub fn loaded_tabs_of(&self, object: &DatabaseObject) -> (ids: Vec<u64>)
        ensures
            ids@ == browse_ids(self.browse_tabs@.filter(shows_loaded(*object))),
    {
        let ghost tabs = self.browse_tabs@;
        let mut ids: Vec<u64> = Vec::new();
        let mut i: usize = 0;
        while i < self.browse_tabs.len()
            invariant
                i <= tabs.len(),
                tabs == self.browse_tabs@,
                ids@ == browse_ids(tabs.take(i as int).filter(shows_loaded(*object))),
            decreases tabs.len() - i,
        {
            proof {
                lemma_filter_step(tabs, i as int, shows_loaded(*object));
            }
            if self.browse_tabs[i].loaded && self.browse_tabs[i].object.same_as(object) {
                ids.push(self.browse_tabs[i].id);
                proof {
                    assert(browse_ids(tabs.take(i as int).filter(shows_loaded(*object)).push(
                        tabs[i as int],
                    )) =~= browse_ids(tabs.take(i as int).filter(shows_loaded(*object))).push(
                        tabs[i as int].id,
                    ));
                }
            }
            i = i + 1;
        }
        proof {
            assert(tabs.take(tabs.len() as int) =~= tabs);
        }
        ids
    }

    /// Drops every table tab that browses `object`; returns the ids of the
    /// tabs that were dropped, in order.
    pub fn remove_object(&mut self, object: &DatabaseObject) -> (removed_ids: Vec<u64>)
        ensures
            final(self).query_tabs@ == old(self).query_tabs@,
            final(self).active_query_tab_id == old(self).active_query_tab_id,
            final(self).next_query_tab_id == old(self).next_query_tab_id,
            final(self).next_browse_tab_id == old(self).next_browse_tab_id,
            final(self).browse_tabs@ == old(self).browse_tabs@.filter(keeps_tab(*object)),
            removed_ids@ == browse_ids(old(self).browse_tabs@.filter(shows_object(*object))),
    {
        let ghost old_tabs = self.browse_tabs@;
        let mut kept: Vec<BrowseTabEntry> = Vec::new();
        let mut ids: Vec<u64> = Vec::new();
        let mut i: usize = 0;
        while i < self.browse_tabs.len()
            invariant
                i <= self.browse_tabs@.len(),
                self.browse_tabs@ == old_tabs,
                kept@ == old_tabs.take(i as int).filter(keeps_tab(*object)),
                ids@ == browse_ids(old_tabs.take(i as int).filter(shows_object(*object))),
            decreases self.browse_tabs@.len() - i,
        {
            let tab = &self.browse_tabs[i];
            proof {
                lemma_filter_step(old_tabs, i as int, shows_object(*object));
                lemma_filter_step(old_tabs, i as int, keeps_tab(*object));
            }
            if tab.object.same_as(object) {
                ids.push(tab.id);
                proof {
                    assert(browse_ids(old_tabs.take(i as int).filter(shows_object(*object)).push(
                        old_tabs[i as int],
                    )) =~= browse_ids(old_tabs.take(i as int).filter(shows_object(*object))).push(
                        old_tabs[i as int].id,
                    ));
                }
            } else {
                let entry = BrowseTabEntry { id: tab.id, object: copy_object(&tab.object), loaded: tab.loaded };
                assert(entry == old_tabs[i as int]);
                kept.push(entry);
            }
            i = i + 1;
        }
        proof {
            assert(old_tabs.take(old_tabs.len() as int) =~= old_tabs);
        }
        self.browse_tabs = kept;
        ids
    }

    /// The tabs that "close other tabs" closes, keeping the query tab
    /// `keep_query` or the table tab `keep_browse`: all other query tab ids
    /// and table tab ids, in order; nothing when neither is given.
    pub fn tabs_to_close_except(&self, keep_query: Option<u64>, keep_browse: Option<u64>) -> (r: (
        Vec<u64>,
        Vec<u64>,
    ))
        ensures
            keep_query is None && keep_browse is None ==> r.0@.len() == 0 && r.1@.len() == 0,
            !(keep_query is None && keep_browse is None) ==> r.0@ == self.query_tabs@.filter(
                |id: u64| Some(id) != keep_query,
            ) && r.1@ == browse_ids(self.browse_tabs@).filter(|id: u64| Some(id) != keep_browse),
    {
        let mut query: Vec<u64> = Vec::new();
        let mut browse: Vec<u64> = Vec::new();
        if keep_query.is_none() && keep_browse.is_none() {
            return (query, browse);
        }
        let ghost qpred = |id: u64| Some(id) != keep_query;
        let ghost bpred = |id: u64| Some(id) != keep_browse;
        let mut i: usize = 0;
        while i < self.query_tabs.len()
            invariant
                i <= self.query_tabs@.len(),
                query@ == self.query_tabs@.take(i as int).filter(qpred),
                qpred == (|id: u64| Some(id) != keep_query),
            decreases self.query_tabs@.len() - i,
        {
            let id = self.query_tabs[i];
            proof {
                lemma_filter_step(self.query_tabs@, i as int, qpred);
            }
            let keep = match keep_query {
                Some(k) => k == id,
                None => false,
            };
            if !keep {
                query.push(id);
            }
            i = i + 1;
        }
        proof {
            assert(self.query_tabs@.take(self.query_tabs@.len() as int) =~= self.query_tabs@);
        }
        let ghost ids = browse_ids(self.browse_tabs@);
        let mut j: usize = 0;
        while j < self.browse_tabs.len()
            invariant
                j <= self.browse_tabs@.len(),
                ids == browse_ids(self.browse_tabs@),
                ids.len() == self.browse_tabs@.len(),
                browse@ == ids.take(j as int).filter(bpred),
                bpred == (|id: u64| Some(id) != keep_browse),
            decreases self.browse_tabs@.len() - j,
        {
            let id = self.browse_tabs[j].id;
            proof {
                lemma_filter_step(ids, j as int, bpred);
                assert(ids[j as int] == id);
            }
            let keep = match keep_browse {
                Some(k) => k == id,
                None => false,
            };
            if !keep {
                browse.push(id);
            }
            j = j + 1;
        }
        proof {
            assert(ids.take(ids.len() as int) =~= ids);
        }
        (query, browse)
    }

    /// Drops every tab and leaves no active query tab.
    pub fn clear(&mut self)
        ensures
            final(self).query_tabs@.len() == 0,
            final(self).browse_tabs@.len() == 0,
            final(self).active_query_tab_id == 0,
            final(self).next_query_tab_id == old(self).next_query_tab_id,
            final(self).next_browse_tab_id == old(self).next_browse_tab_id,
    {
        self.query_tabs = Vec::new();
        self.browse_tabs = Vec::new();
        self.active_query_tab_id = 0;
    }
}

/// A query tab added under the next free id keeps the ids distinct and
/// below the next id, as long as the id counter has not reached its last
/// value.
proof fn lemma_added_id_is_fresh(ids: Seq<u64>, next: u64)
    requires
        forall|i: int| 0 <= i < ids.len() ==> #[trigger] ids[i] < next,
        query_ids_distinct(ids),
        next < u64::MAX,
    ensures
        query_ids_distinct(ids.push(next)),
        forall|i: int| 0 <= i < ids.push(next).len() ==> #[trigger] ids.push(next)[i] < next_after(next, next),
{
    let after = ids.push(next);
    assert forall|i: int, j: int| 0 <= i < j < after.len() implies #[trigger] after[i]
        != #[trigger] after[j] by {
        assert(after[i] == ids[i]);
        if j < ids.len() {
            assert(after[j] == ids[j]);
        }
    }
    assert forall|i: int| 0 <= i < after.len() implies #[trigger] after[i] < next_after(next, next) by {
        if i < ids.len() {
            assert(after[i] == ids[i]);
        }
    }
}

} // verus!
