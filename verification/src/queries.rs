//! Running queries in editor tabs: when a run may start, which answers are
//! taken, and cancelling.

use vstd::prelude::*;
use crate::models::QueryExecutionResult;
use crate::results::query_result_reached_row_limit;
use crate::text::{trim, trim_spec};

verus! {

/// The run state of one query tab.
#[derive(Clone, Copy, Debug, PartialEq, Eq, Structural)]
pub struct QueryTabRun {
    pub tab_id: u64,
    pub running: bool,
    pub active_query: Option<u64>,
}

/// The query tabs of a window and the next query id.
#[derive(Debug)]
pub struct QueryRuns {
    pub tabs: Vec<QueryTabRun>,
    pub next_query_id: u64,
}

/// What asking for a run gave.
#[derive(Clone, Copy, Debug, PartialEq, Eq, Structural)]
pub enum RunDecision {
    /// No tab has this id.
    UnknownTab,
    /// The tab already runs a query.
    AlreadyRunning,
    /// There is no connection.
    NotConnected,
    /// The SQL is blank.
    EmptySql,
    /// The run started with this id.
    Started(u64),
}

/// The position of the first tab with id `tab_id`.
pub open spec fn tab_position(tabs: Seq<QueryTabRun>, tab_id: u64) -> Option<int> {
    if exists|i: int| 0 <= i < tabs.len() && tabs[i].tab_id == tab_id {
        Some(
            choose|i: int|
                0 <= i < tabs.len() && tabs[i].tab_id == tab_id && forall|j: int|
                    0 <= j < i ==> tabs[j].tab_id != tab_id,
        )
    } else {
        None
    }
}

/// The answer with id `id` belongs to the run that tab `tab_id` waits for.
pub open spec fn is_active_spec(tabs: Seq<QueryTabRun>, tab_id: u64, id: u64) -> bool {
    match tab_position(tabs, tab_id) {
        Some(i) => tabs[i].active_query == Some(id),
        None => false,
    }
}

pub open spec fn next_query_id_spec(id: u64) -> u64 {
    if id == u64::MAX {
        0
    } else {
        (id + 1) as u64
    }
}

impl QueryRuns {
    /// No tabs yet.
    pub fn new() -> (r: QueryRuns)
        ensures
            r.tabs@.len() == 0,
            r.next_query_id == 0,
    {
        QueryRuns { tabs: Vec::new(), next_query_id: 0 }
    }

    /// The position of the first tab with id `tab_id`.
    pub fn find(&self, tab_id: u64) -> (r: Option<usize>)
        ensures
            match r {
                Some(i) => tab_position(self.tabs@, tab_id) == Some(i as int) && i < self.tabs@.len()
                    && self.tabs@[i as int].tab_id == tab_id,
                None => tab_position(self.tabs@, tab_id) is None,
            },
    {
        let mut i: usize = 0;
        while i < self.tabs.len()
            invariant
                i <= self.tabs.len(),
                forall|j: int| 0 <= j < i ==> self.tabs@[j].tab_id != tab_id,
            decreases self.tabs.len() - i,
        {
            if self.tabs[i].tab_id == tab_id {
                proof {
                    let w = choose|k: int|
                        0 <= k < self.tabs@.len() && self.tabs@[k].tab_id == tab_id && forall|j: int|
                            0 <= j < k ==> self.tabs@[j].tab_id != tab_id;
                    assert(0 <= i < self.tabs@.len() && self.tabs@[i as int].tab_id == tab_id);
                    if w < i {
                    } else if w > i {
                        assert(self.tabs@[i as int].tab_id != tab_id);
                    }
                }
                return Some(i);
            }
            i = i + 1;
        }
        None
    }

    /// Adds an idle tab.
    pub fn add_tab(&mut self, tab_id: u64)
        ensures
            final(self).tabs@ == old(self).tabs@.push(
                QueryTabRun { tab_id, running: false, active_query: None },
            ),
            final(self).next_query_id == old(self).next_query_id,
    {
        self.tabs.push(QueryTabRun { tab_id, running: false, active_query: None });
    }

    /// Whether an answer with id `id` is the one tab `tab_id` waits for.
    pub fn is_active_query(&self, tab_id: u64, id: u64) -> (r: bool)
        ensures
            r == is_active_spec(self.tabs@, tab_id, id),
    {
        match self.find(tab_id) {
            Some(i) => self.tabs[i].active_query == Some(id),
            None => false,
        }
    }

    /// Asks to run the tab's SQL: a known tab that runs nothing, a
    /// connection and non-blank SQL are needed; then the run gets the next
    /// query id and the tab waits for it.
    pub fn start(&mut self, tab_id: u64, connected: bool, sql: &str) -> (r: RunDecision)
        ensures
            match tab_position(old(self).tabs@, tab_id) {
                None => r == RunDecision::UnknownTab,
                Some(i) => if old(self).tabs@[i].running {
                    r == RunDecision::AlreadyRunning
                } else if !connected {
                    r == RunDecision::NotConnected
                } else if trim_spec(sql@).len() == 0 {
                    r == RunDecision::EmptySql
                } else {
                    &&& r == RunDecision::Started(old(self).next_query_id)
                    &&& final(self).tabs@ == old(self).tabs@.update(
                        i,
                        QueryTabRun {
                            tab_id,
                            running: true,
                            active_query: Some(old(self).next_query_id),
                        },
                    )
                    &&& final(self).next_query_id == next_query_id_spec(old(self).next_query_id)
                },
            },
            !(r is Started) ==> final(self).tabs@ == old(self).tabs@ && final(self).next_query_id
                == old(self).next_query_id,
    {
        let i = match self.find(tab_id) {
            Some(i) => i,
            None => return RunDecision::UnknownTab,
        };
        if self.tabs[i].running {
            return RunDecision::AlreadyRunning;
        }
        if !connected {
            return RunDecision::NotConnected;
        }
        let trimmed = trim(sql);
        if crate::text::chars_of(trimmed.as_str()).len() == 0 {
            return RunDecision::EmptySql;
        }
        let id = self.next_query_id;
        self.next_query_id = if id == u64::MAX {
            0
        } else {
            id + 1
        };
        self.tabs.set(i, QueryTabRun { tab_id, running: true, active_query: Some(id) });
        RunDecision::Started(id)
    }

    /// Takes in the answer `id` for tab `tab_id` (a result or a cancellation):
    /// only the run the tab waits for is taken, and the tab goes idle.
    pub fn finish(&mut self, tab_id: u64, id: u64) -> (taken: bool)
        ensures
            taken == is_active_spec(old(self).tabs@, tab_id, id),
            taken ==> final(self).tabs@ == old(self).tabs@.update(
                tab_position(old(self).tabs@, tab_id)->0,
                QueryTabRun { tab_id, running: false, active_query: None },
            ),
            !taken ==> final(self).tabs@ == old(self).tabs@,
            final(self).next_query_id == old(self).next_query_id,
    {
        match self.find(tab_id) {
            Some(i) => {
                if self.tabs[i].active_query == Some(id) {
                    self.tabs.set(i, QueryTabRun { tab_id, running: false, active_query: None });
                    true
                } else {
                    false
                }
            },
            None => false,
        }
    }

    /// Cancels the run of tab `tab_id`, if it waits for one; the caller
    /// aborts the run.
    pub fn cancel(&mut self, tab_id: u64) -> (cancelled: Option<u64>)
        ensures
            match tab_position(old(self).tabs@, tab_id) {
                Some(i) => cancelled == old(self).tabs@[i].active_query && (cancelled is Some
                    ==> final(self).tabs@ == old(self).tabs@.update(
                    i,
                    QueryTabRun { tab_id, running: false, active_query: None },
                )) && (cancelled is None ==> final(self).tabs@ == old(self).tabs@),
                None => cancelled is None && final(self).tabs@ == old(self).tabs@,
            },
            final(self).next_query_id == old(self).next_query_id,
    {
        match self.find(tab_id) {
            Some(i) => {
                match self.tabs[i].active_query {
                    Some(id) => {
                        self.tabs.set(i, QueryTabRun { tab_id, running: false, active_query: None });
                        Some(id)
                    },
                    None => None,
                }
            },
            None => None,
        }
    }

    /// Cancels every running query; returns the ids of the tabs that had one.
    pub fn cancel_all(&mut self) -> (cancelled: Vec<u64>)
        ensures
            final(self).tabs@.len() == old(self).tabs@.len(),
            forall|i: int|
                0 <= i < final(self).tabs@.len() ==> #[trigger] final(self).tabs@[i] == if old(
                    self,
                ).tabs@[i].active_query is Some {
                    QueryTabRun {
                        tab_id: old(self).tabs@[i].tab_id,
                        running: false,
                        active_query: None,
                    }
                } else {
                    old(self).tabs@[i]
                },
            final(self).next_query_id == old(self).next_query_id,
    {
        let mut cancelled: Vec<u64> = Vec::new();
        let mut i: usize = 0;
        let ghost start = self.tabs@;
        let ghost start_id = self.next_query_id;
        while i < self.tabs.len()
            invariant
                i <= self.tabs.len(),
                self.next_query_id == start_id,
                self.tabs@.len() == start.len(),
                forall|j: int|
                    0 <= j < self.tabs@.len() ==> #[trigger] self.tabs@[j] == if j < i
                        && start[j].active_query is Some {
                        QueryTabRun { tab_id: start[j].tab_id, running: false, active_query: None }
                    } else {
                        start[j]
                    },
            decreases self.tabs.len() - i,
        {
            let tab = self.tabs[i];
            if tab.active_query.is_some() {
                self.tabs.set(i, QueryTabRun { tab_id: tab.tab_id, running: false, active_query: None });
                cancelled.push(tab.tab_id);
            }
            i = i + 1;
        }
        cancelled
    }
}

impl RunDecision {
    /// The notice shown when a run was refused, as a message id; none for a
    /// started run or an unknown tab.
    pub fn notice_msgid(self) -> (r: Option<&'static str>)
        ensures
            r == (match self {
                RunDecision::AlreadyRunning => Some("A query is already running."),
                RunDecision::NotConnected => Some("Connect to PostgreSQL before running a query."),
                RunDecision::EmptySql => Some("Enter SQL before running a query."),
                _ => None::<&'static str>,
            }),
    {
        match self {
            RunDecision::AlreadyRunning => Some("A query is already running."),
            RunDecision::NotConnected => Some("Connect to PostgreSQL before running a query."),
            RunDecision::EmptySql => Some("Enter SQL before running a query."),
            _ => None,
        }
    }
}

/// The notice after a run of several statements stopped at the row limit.
pub fn row_limit_notice_msgid(has_multiple_statements: bool, result: &QueryExecutionResult) -> (r:
    Option<&'static str>)
    ensures
        r == (if has_multiple_statements && (result matches QueryExecutionResult::Rows(rows)
            && rows.row_limit_reached) {
            Some("Row limit reached. Query execution stopped.")
        } else {
            None::<&'static str>
        }),
{
    if has_multiple_statements && query_result_reached_row_limit(result) {
        Some("Row limit reached. Query execution stopped.")
    } else {
        None
    }
}

/// The first tab with the id is where `tab_position` points.
pub proof fn lemma_tab_position(tabs: Seq<QueryTabRun>, tab_id: u64)
    ensures
        tab_position(tabs, tab_id) matches Some(i) ==> 0 <= i < tabs.len() && tabs[i].tab_id
            == tab_id && forall|j: int| 0 <= j < i ==> tabs[j].tab_id != tab_id,
{
    if exists|i: int| 0 <= i < tabs.len() && tabs[i].tab_id == tab_id {
        let w = choose|i: int| 0 <= i < tabs.len() && tabs[i].tab_id == tab_id;
        lemma_first_position(tabs, tab_id, w);
    }
}

proof fn lemma_first_position(tabs: Seq<QueryTabRun>, tab_id: u64, w: int)
    requires
        0 <= w < tabs.len(),
        tabs[w].tab_id == tab_id,
    ensures
        exists|i: int|
            0 <= i < tabs.len() && tabs[i].tab_id == tab_id && forall|j: int|
                0 <= j < i ==> tabs[j].tab_id != tab_id,
    decreases w,
{
    if exists|j: int| 0 <= j < w && tabs[j].tab_id == tab_id {
        let j = choose|j: int| 0 <= j < w && tabs[j].tab_id == tab_id;
        lemma_first_position(tabs, tab_id, j);
    }
}

/// An answer is taken at most once: once taken, the same answer is no longer
/// the one its tab waits for.
pub proof fn answer_is_taken_once(tabs: Seq<QueryTabRun>, tab_id: u64, id: u64)
    requires
        is_active_spec(tabs, tab_id, id),
    ensures
        !is_active_spec(
            tabs.update(
                tab_position(tabs, tab_id)->0,
                QueryTabRun { tab_id, running: false, active_query: None },
            ),
            tab_id,
            id,
        ),
{
    lemma_tab_position(tabs, tab_id);
    let i = tab_position(tabs, tab_id)->0;
    let t2 = tabs.update(i, QueryTabRun { tab_id, running: false, active_query: None });
    assert(t2[i].tab_id == tab_id);
    let w = choose|k: int|
        0 <= k < t2.len() && t2[k].tab_id == tab_id && forall|j: int| 0 <= j < k ==> t2[j].tab_id != tab_id;
    assert(exists|k: int| 0 <= k < t2.len() && t2[k].tab_id == tab_id);
    if w < i {
        assert(tabs[w].tab_id == tab_id);
    } else if w > i {
        assert(t2[i].tab_id != tab_id);
    }
}

/// Cancelling a run drops its answer: once `cancel` has cleared the run the
/// tab waited for, the answer of that run is no longer taken.
pub proof fn cancelled_run_answer_is_dropped(tabs: Seq<QueryTabRun>, tab_id: u64, id: u64)
    requires
        is_active_spec(tabs, tab_id, id),
    ensures
        ({
            let i = tab_position(tabs, tab_id)->0;
            let after_cancel = tabs.update(i, QueryTabRun { tab_id, running: false, active_query: None });
            &&& tabs[i].active_query == Some(id)
            &&& !is_active_spec(after_cancel, tab_id, id)
        }),
{
    answer_is_taken_once(tabs, tab_id, id);
}

} // verus!
