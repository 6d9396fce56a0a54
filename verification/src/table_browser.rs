//! The table browser: paging through a table, the requests it issues and
//! which responses it accepts, sorting, and what it shows.

use vstd::prelude::*;
use crate::grid::CellEditSubmission;
use crate::i18n::{tr, translated};
use crate::models::{
    ColumnTypeGroup, CsvDelimiter, DatabaseObject, DatabaseObjectKind, SortDirection, TableCell,
    TableColumn, TablePage, TableSort, editable_value_type, same_sort,
};
use crate::text::{chars_of, decimal, decimal_string, replace_all, replace_spec, same_text, string_from_chars};

verus! {

/// The offset of the first row of the last page of `row_count` rows.
pub open spec fn last_page_offset_spec(row_count: int, page_size: int) -> int {
    if row_count <= 0 || page_size == 0 {
        0
    } else {
        let offset = ((row_count - 1) / page_size) * page_size;
        if offset > u32::MAX {
            u32::MAX as int
        } else {
            offset
        }
    }
}

/// Where the last page of a table with `row_count` rows starts.
pub fn last_page_offset(row_count: i64, page_size: u32) -> (r: u32)
    ensures
        r == last_page_offset_spec(row_count as int, page_size as int),
{
    if row_count <= 0 || page_size == 0 {
        return 0;
    }
    let rows = row_count as u64;
    let size = page_size as u64;
    let pages = (rows - 1) / size;
    assert(pages * size <= rows - 1) by (nonlinear_arith)
        requires
            pages as int == (rows as int - 1) / size as int,
            size > 0,
            rows >= 1,
    ;
    let offset = pages * size;
    if offset > u32::MAX as u64 {
        u32::MAX
    } else {
        offset as u32
    }
}

/// The last page starts at a multiple of the page size, before the last
/// row, and reaches the last row (when that offset fits in a `u32`).
pub proof fn last_page_holds_the_last_row(row_count: int, page_size: int)
    requires
        row_count > 0,
        page_size > 0,
        ((row_count - 1) / page_size) * page_size <= u32::MAX,
    ensures
        ({
            let offset = last_page_offset_spec(row_count, page_size);
            &&& offset % page_size == 0
            &&& offset < row_count
            &&& row_count <= offset + page_size
        }),
{
    let q = (row_count - 1) / page_size;
    let r = (row_count - 1) % page_size;
    assert(q * page_size + r == row_count - 1 && 0 <= r < page_size) by (nonlinear_arith)
        requires
            page_size > 0,
            q == (row_count - 1) / page_size,
            r == (row_count - 1) % page_size,
    ;
    assert((q * page_size) % page_size == 0) by (nonlinear_arith)
        requires
            page_size > 0,
            q >= 0,
    ;
    assert(q >= 0) by (nonlinear_arith)
        requires
            page_size > 0,
            row_count > 0,
            q == (row_count - 1) / page_size,
    ;
}

/// The sort after a click on a column header: a third click on a column
/// (descending, then clicked ascending again) removes the sort.
pub open spec fn next_sort_spec(current: Option<TableSort>, clicked: TableSort) -> Option<TableSort> {
    if current is Some && current->0.column_name@ == clicked.column_name@ && current->0.direction
        == SortDirection::Descending && clicked.direction == SortDirection::Ascending {
        None
    } else {
        Some(clicked)
    }
}

/// The sort after a click on a column header.
pub fn next_sort_for_header_click(current: Option<&TableSort>, clicked: TableSort) -> (r: Option<
    TableSort,
>)
    ensures
        r == next_sort_spec(
            match current {
                Some(s) => Some(*s),
                None => None,
            },
            clicked,
        ),
{
    let is_third_click = match current {
        Some(current) => current.column_name == clicked.column_name && current.direction
            == SortDirection::Descending && clicked.direction == SortDirection::Ascending,
        None => false,
    };
    if is_third_click {
        None
    } else {
        Some(clicked)
    }
}

/// A header click gives the clicked sort or none, and only the third click
/// on a column (it is sorted descending and the click asks for ascending)
/// removes the sort: a click on another column, a click while nothing is
/// sorted, and any click asking for descending all sort as clicked.
pub proof fn only_the_third_click_removes_the_sort(current: Option<TableSort>, clicked: TableSort)
    ensures
        next_sort_spec(current, clicked) is None || next_sort_spec(current, clicked) == Some(
            clicked,
        ),
        current is None ==> next_sort_spec(current, clicked) == Some(clicked),
        clicked.direction == SortDirection::Descending ==> next_sort_spec(current, clicked) == Some(
            clicked,
        ),
        (current matches Some(c) && c.column_name@ != clicked.column_name@) ==> next_sort_spec(
            current,
            clicked,
        ) == Some(clicked),
        (current matches Some(c) && c.direction == SortDirection::Ascending) ==> next_sort_spec(
            current,
            clicked,
        ) == Some(clicked),
        next_sort_spec(current, clicked) is None ==> (current matches Some(c)
            && c.column_name@ == clicked.column_name@ && c.direction == SortDirection::Descending
            && clicked.direction == SortDirection::Ascending),
{
}

/// Clicking one header three times, first ascending, then descending, then
/// ascending again, sorts ascending, then descending, then removes the sort.
pub proof fn three_clicks_cycle_the_sort(name: String, start: Option<TableSort>)
    requires
        start is None || start->0.column_name@ != name@,
    ensures
        ({
            let asc = TableSort { column_name: name, direction: SortDirection::Ascending };
            let desc = TableSort { column_name: name, direction: SortDirection::Descending };
            &&& next_sort_spec(start, asc) == Some(asc)
            &&& next_sort_spec(Some(asc), desc) == Some(desc)
            &&& next_sort_spec(Some(desc), asc) is None
        }),
{
}

/// A page has a column of the given name.
pub open spec fn has_column_named(columns: Seq<TableColumn>, name: Seq<char>) -> bool {
    exists|i: int| 0 <= i < columns.len() && #[trigger] columns[i].name@ == name
}

/// Whether one of `columns` is called `name`.
pub fn has_column(columns: &Vec<TableColumn>, name: &String) -> (r: bool)
    ensures
        r == has_column_named(columns@, name@),
{
    let mut i: usize = 0;
    while i < columns.len()
        invariant
            i <= columns.len(),
            forall|j: int| 0 <= j < i ==> #[trigger] columns@[j].name@ != name@,
        decreases columns.len() - i,
    {
        if columns[i].name == *name {
            return true;
        }
        i = i + 1;
    }
    false
}

/// What the browser asks the application to do after an event.
#[derive(Debug)]
pub enum BrowserAction {
    /// Nothing to do.
    Nothing,
    /// Abort any running load and load a page with the current filters and
    /// sort; the response comes back with `id`.
    LoadPage { id: u64, offset: u32, page_size: u32 },
    /// Abort any running load and count the rows to find the last page.
    LoadLastPageOffset { id: u64, page_size: u32 },
    /// A page was loaded, or failed to: render the table and filters again.
    Render,
    /// Insert the confirmed row; the answer comes back with `id`.
    RunInsert { id: u64 },
    /// Delete row `row_index` of the shown page; the answer comes back with
    /// `id`.
    RunDelete { id: u64, row_index: usize },
    /// A row was inserted or deleted and the page reloaded: render it and
    /// show the notice (a message id).
    RenderWithNotice(&'static str),
    /// Show a warning with this heading (a message id) and detail.
    Warn { heading: &'static str, detail: String },
}

/// The answer to an insert.
#[derive(Debug)]
pub enum InsertRowResult {
    Inserted(TablePage),
    InsertFailed(String),
    ReloadFailed(String),
}

/// The answer to a delete.
#[derive(Debug)]
pub enum DeleteRowResult {
    Deleted(TablePage),
    DeleteFailed(String),
    ReloadFailed(String),
}

/// The events that move the browser between pages and requests.
#[derive(Debug)]
pub enum TableBrowserMsg {
    Open(DatabaseObject),
    ObjectRenamed(DatabaseObject),
    Refresh,
    SchemaChanged,
    FirstPage,
    PreviousPage,
    NextPage,
    LastPage,
    PageSizeChanged(u32),
    ToggleFilters,
    FiltersApplied(usize),
    FiltersCleared,
    SortChanged(TableSort),
    PageLoaded { id: u64, result: Result<TablePage, String> },
    LastPageOffsetLoaded { id: u64, result: Result<u32, String> },
    InsertRowConfirmed,
    RowInserted { id: u64, result: InsertRowResult },
    DeleteRowConfirmed { page_generation: u64, row_index: usize },
    RowDeleted { id: u64, result: DeleteRowResult },
}

/// The paging state of the table browser. The texts of the status page are
/// translations and stand beside it.
#[derive(Debug)]
pub struct TableBrowser {
    pub connected: bool,
    pub object: Option<DatabaseObject>,
    pub page: Option<TablePage>,
    pub is_loading: bool,
    pub is_error: bool,
    pub offset: u32,
    pub page_size: u32,
    pub sort: Option<TableSort>,
    pub active_filter_count: usize,
    pub filters_expanded: bool,
    pub page_generation: u64,
    pub request_id: u64,
    pub active_request_id: Option<u64>,
    pub active_last_page_request_id: Option<u64>,
    pub active_insert_request_id: Option<u64>,
    pub active_delete_request_id: Option<u64>,
    pub status_title: String,
    pub status_description: Option<String>,
}

/// The paging state without the translated texts.
pub struct BrowserCore {
    pub connected: bool,
    pub object: Option<DatabaseObject>,
    pub page: Option<TablePage>,
    pub is_loading: bool,
    pub is_error: bool,
    pub offset: u32,
    pub page_size: u32,
    pub sort: Option<TableSort>,
    pub active_filter_count: usize,
    pub filters_expanded: bool,
    pub page_generation: u64,
    pub request_id: u64,
    pub active_request_id: Option<u64>,
    pub active_last_page_request_id: Option<u64>,
    pub active_insert_request_id: Option<u64>,
    pub active_delete_request_id: Option<u64>,
}

/// What a step of the browser does, on the core state.
pub enum CoreAction {
    Nothing,
    LoadPage { id: u64, offset: u32, page_size: u32 },
    LoadLastPageOffset { id: u64, page_size: u32 },
    Render,
    RunInsert { id: u64 },
    RunDelete { id: u64, row_index: usize },
    RenderWithNotice(Seq<char>),
    Warn { heading: Seq<char>, detail: Seq<char> },
}

impl TableBrowser {
    pub open spec fn paging(self) -> BrowserCore {
        BrowserCore {
            connected: self.connected,
            object: self.object,
            page: self.page,
            is_loading: self.is_loading,
            is_error: self.is_error,
            offset: self.offset,
            page_size: self.page_size,
            sort: self.sort,
            active_filter_count: self.active_filter_count,
            filters_expanded: self.filters_expanded,
            page_generation: self.page_generation,
            request_id: self.request_id,
            active_request_id: self.active_request_id,
            active_last_page_request_id: self.active_last_page_request_id,
            active_insert_request_id: self.active_insert_request_id,
            active_delete_request_id: self.active_delete_request_id,
        }
    }
}

/// The texts of the status page after a step from `s` on `event` that asked
/// for `a`: a page load shows the loading note; an accepted page, inserted
/// row or deleted row clears them; a page that failed to load shows the
/// failure and the error; anything else, a stale answer among them, keeps
/// them as they were.
pub open spec fn status_after(
    old_title: Seq<char>,
    old_description: Option<String>,
    s: BrowserCore,
    event: TableBrowserMsg,
    a: CoreAction,
    title: Seq<char>,
    description: Option<String>,
) -> bool {
    let cleared = title.len() == 0 && description is None;
    let kept = title == old_title && description == old_description;
    if a is LoadPage {
        &&& translated("Loading rows"@, title)
        &&& (description matches Some(d) && translated(
            "Fetching the selected page from PostgreSQL."@,
            d@,
        ))
    } else {
        match event {
            TableBrowserMsg::PageLoaded { id, result } => if s.active_request_id == Some(id) {
                match result {
                    Ok(_) => cleared,
                    Err(error) => translated("Loading table failed"@, title) && description
                        == Some(error),
                }
            } else {
                kept
            },
            TableBrowserMsg::RowInserted { id, result } => if s.active_insert_request_id == Some(id)
                && result is Inserted {
                cleared
            } else {
                kept
            },
            TableBrowserMsg::RowDeleted { id, result } => if s.active_delete_request_id == Some(id)
                && result is Deleted {
                cleared
            } else {
                kept
            },
            _ => kept,
        }
    }
}

/// The core action matching an action.
pub open spec fn core_action(a: BrowserAction) -> CoreAction {
    match a {
        BrowserAction::Nothing => CoreAction::Nothing,
        BrowserAction::LoadPage { id, offset, page_size } => CoreAction::LoadPage {
            id,
            offset,
            page_size,
        },
        BrowserAction::LoadLastPageOffset { id, page_size } => CoreAction::LoadLastPageOffset {
            id,
            page_size,
        },
        BrowserAction::Render => CoreAction::Render,
        BrowserAction::RunInsert { id } => CoreAction::RunInsert { id },
        BrowserAction::RunDelete { id, row_index } => CoreAction::RunDelete { id, row_index },
        BrowserAction::RenderWithNotice(m) => CoreAction::RenderWithNotice(m@),
        BrowserAction::Warn { heading, detail } => CoreAction::Warn {
            heading: heading@,
            detail: detail@,
        },
    }
}

/// The next request id.
pub open spec fn next_id(id: u64) -> u64 {
    if id == u64::MAX {
        0
    } else {
        (id + 1) as u64
    }
}

/// The browser can go back a page: not loading and not at the first row.
pub open spec fn can_go_previous_spec(s: BrowserCore) -> bool {
    !s.is_loading && s.offset > 0
}

/// The browser can go forward a page: not loading and the page says a next
/// page exists.
pub open spec fn can_go_next_spec(s: BrowserCore) -> bool {
    !s.is_loading && s.page is Some && s.page->0.has_next_page
}

/// Loading the current page: nothing without a connection and an object;
/// otherwise the page is dropped, loading starts and a fresh request id is
/// issued and becomes the only one whose response is accepted.
pub open spec fn load_page_spec(s: BrowserCore) -> (BrowserCore, CoreAction) {
    if !s.connected || s.object is None {
        (s, CoreAction::Nothing)
    } else {
        (
            BrowserCore {
                active_last_page_request_id: None,
                is_loading: true,
                is_error: false,
                page: None,
                request_id: next_id(s.request_id),
                active_request_id: Some(s.request_id),
                ..s
            },
            CoreAction::LoadPage { id: s.request_id, offset: s.offset, page_size: s.page_size },
        )
    }
}

/// Counting the rows to find the last page.
pub open spec fn load_last_page_spec(s: BrowserCore) -> (BrowserCore, CoreAction) {
    if !s.connected || s.object is None {
        (s, CoreAction::Nothing)
    } else {
        (
            BrowserCore {
                is_loading: true,
                request_id: next_id(s.request_id),
                active_last_page_request_id: Some(s.request_id),
                ..s
            },
            CoreAction::LoadLastPageOffset { id: s.request_id, page_size: s.page_size },
        )
    }
}

/// The core state with the view reset to the first page and no sort and no
/// filters.
pub open spec fn reset_view(s: BrowserCore) -> BrowserCore {
    BrowserCore {
        offset: 0,
        active_filter_count: 0,
        sort: None,
        filters_expanded: false,
        ..s
    }
}

/// One step of the browser.
pub open spec fn browser_step(s: BrowserCore, e: TableBrowserMsg) -> (BrowserCore, CoreAction) {
    match e {
        TableBrowserMsg::Open(object) => load_page_spec(
            BrowserCore { connected: true, object: Some(object), ..reset_view(s) },
        ),
        TableBrowserMsg::ObjectRenamed(object) => load_page_spec(
            BrowserCore { object: Some(object), offset: 0, ..s },
        ),
        TableBrowserMsg::Refresh => load_page_spec(s),
        TableBrowserMsg::SchemaChanged => load_page_spec(reset_view(s)),
        TableBrowserMsg::FirstPage => if can_go_previous_spec(s) {
            load_page_spec(BrowserCore { offset: 0, ..s })
        } else {
            (s, CoreAction::Nothing)
        },
        TableBrowserMsg::PreviousPage => load_page_spec(
            BrowserCore {
                offset: if s.offset >= s.page_size {
                    (s.offset - s.page_size) as u32
                } else {
                    0
                },
                ..s
            },
        ),
        TableBrowserMsg::NextPage => if can_go_next_spec(s) {
            load_page_spec(
                BrowserCore {
                    offset: if s.offset + s.page_size > u32::MAX {
                        u32::MAX
                    } else {
                        (s.offset + s.page_size) as u32
                    },
                    ..s
                },
            )
        } else {
            (s, CoreAction::Nothing)
        },
        TableBrowserMsg::LastPage => if can_go_next_spec(s) {
            load_last_page_spec(s)
        } else {
            (s, CoreAction::Nothing)
        },
        TableBrowserMsg::PageSizeChanged(size) => if size == s.page_size {
            (s, CoreAction::Nothing)
        } else {
            load_page_spec(BrowserCore { page_size: size, offset: 0, ..s })
        },
        TableBrowserMsg::ToggleFilters => (
            BrowserCore { filters_expanded: !s.filters_expanded, ..s },
            CoreAction::Nothing,
        ),
        TableBrowserMsg::FiltersApplied(count) => load_page_spec(
            BrowserCore { active_filter_count: count, filters_expanded: count > 0, offset: 0, ..s },
        ),
        TableBrowserMsg::FiltersCleared => load_page_spec(
            BrowserCore { active_filter_count: 0, offset: 0, ..s },
        ),
        TableBrowserMsg::SortChanged(clicked) => {
            let next = next_sort_spec(s.sort, clicked);
            if same_sort(s.sort, next) {
                (s, CoreAction::Nothing)
            } else {
                load_page_spec(BrowserCore { sort: next, offset: 0, ..s })
            }
        },
        TableBrowserMsg::PageLoaded { id, result } => if s.active_request_id != Some(id) {
            (s, CoreAction::Nothing)
        } else {
            let base = BrowserCore { active_request_id: None, is_loading: false, ..s };
            match result {
                Ok(page) => (
                    BrowserCore {
                        is_error: false,
                        sort: if s.sort is Some && !has_column_named(
                            page.columns@,
                            s.sort->0.column_name@,
                        ) {
                            None
                        } else {
                            s.sort
                        },
                        page: Some(page),
                        page_generation: next_id(s.page_generation),
                        ..base
                    },
                    CoreAction::Render,
                ),
                Err(_) => (BrowserCore { is_error: true, page: None, ..base }, CoreAction::Render),
            }
        },
        TableBrowserMsg::LastPageOffsetLoaded { id, result } => if s.active_last_page_request_id
            != Some(id) {
            (s, CoreAction::Nothing)
        } else {
            let base = BrowserCore {
                active_last_page_request_id: None,
                is_loading: false,
                ..s
            };
            match result {
                Ok(offset) => load_page_spec(BrowserCore { offset, ..base }),
                Err(error) => (
                    base,
                    CoreAction::Warn { heading: "Loading last page failed"@, detail: error@ },
                ),
            }
        },
        TableBrowserMsg::InsertRowConfirmed => if !s.connected {
            (s, CoreAction::Nothing)
        } else {
            (
                BrowserCore {
                    is_loading: true,
                    request_id: next_id(s.request_id),
                    active_insert_request_id: Some(s.request_id),
                    active_delete_request_id: None,
                    ..s
                },
                CoreAction::RunInsert { id: s.request_id },
            )
        },
        TableBrowserMsg::RowInserted { id, result } => if s.active_insert_request_id != Some(id) {
            (s, CoreAction::Nothing)
        } else {
            let base = BrowserCore { active_insert_request_id: None, is_loading: false, ..s };
            match result {
                InsertRowResult::Inserted(page) => (
                    BrowserCore {
                        is_error: false,
                        page: Some(page),
                        page_generation: next_id(s.page_generation),
                        ..base
                    },
                    CoreAction::RenderWithNotice("Row inserted."@),
                ),
                InsertRowResult::InsertFailed(e) => (
                    base,
                    CoreAction::Warn { heading: "Inserting row failed"@, detail: e@ },
                ),
                InsertRowResult::ReloadFailed(e) => (
                    base,
                    CoreAction::Warn { heading: "Reloading table failed"@, detail: e@ },
                ),
            }
        },
        TableBrowserMsg::DeleteRowConfirmed { page_generation, row_index } => if page_generation
            != s.page_generation || !s.connected || s.page is None || s.page->0.object.kind
            != DatabaseObjectKind::Table || row_index >= s.page->0.rows@.len() {
            (s, CoreAction::Nothing)
        } else {
            (
                BrowserCore {
                    is_loading: true,
                    request_id: next_id(s.request_id),
                    active_delete_request_id: Some(s.request_id),
                    ..s
                },
                CoreAction::RunDelete { id: s.request_id, row_index },
            )
        },
        TableBrowserMsg::RowDeleted { id, result } => if s.active_delete_request_id != Some(id) {
            (s, CoreAction::Nothing)
        } else {
            let base = BrowserCore { active_delete_request_id: None, is_loading: false, ..s };
            match result {
                DeleteRowResult::Deleted(page) => (
                    BrowserCore {
                        is_error: false,
                        offset: page.offset,
                        page: Some(page),
                        page_generation: next_id(s.page_generation),
                        ..base
                    },
                    CoreAction::RenderWithNotice("Row deleted."@),
                ),
                DeleteRowResult::DeleteFailed(e) => (
                    base,
                    CoreAction::Warn { heading: "Deleting row failed"@, detail: e@ },
                ),
                DeleteRowResult::ReloadFailed(e) => (
                    base,
                    CoreAction::Warn { heading: "Reloading table failed"@, detail: e@ },
                ),
            }
        },
    }
}

/// The loading indicator is on exactly while a page or row count request is
/// outstanding, at most one of them is, and no insert or delete is.
pub open spec fn browser_wf(s: BrowserCore) -> bool {
    &&& s.is_loading <==> (s.active_request_id is Some || s.active_last_page_request_id is Some)
    &&& !(s.active_request_id is Some && s.active_last_page_request_id is Some)
    &&& s.active_insert_request_id is None
    &&& s.active_delete_request_id is None
}

/// Copies a sort order.
fn copy_sort(sort: &Option<TableSort>) -> (r: Option<TableSort>)
    ensures
        r == *sort,
{
    match sort {
        Some(s) => Some(TableSort { column_name: s.column_name.clone(), direction: s.direction }),
        None => None,
    }
}

impl TableBrowser {
    /// A browser with nothing open, showing pages of `page_size` rows.
    pub fn new(page_size: u32) -> (r: TableBrowser)
        ensures
            !r.connected,
            r.object is None,
            r.page is None,
            !r.is_loading,
            r.offset == 0,
            r.page_size == page_size,
            !r.is_error,
            r.sort is None,
            r.active_filter_count == 0,
            !r.filters_expanded,
            r.page_generation == 0,
            r.request_id == 0,
            r.active_request_id is None,
            r.active_last_page_request_id is None,
            r.active_insert_request_id is None,
            r.active_delete_request_id is None,
            translated("Select a table"@, r.status_title@),
            (r.status_description matches Some(d) && translated(
                "Choose a table or view from the sidebar to browse its rows."@,
                d@,
            )),
            browser_wf(r.paging()),
    {
        TableBrowser {
            connected: false,
            object: None,
            page: None,
            is_loading: false,
            is_error: false,
            offset: 0,
            page_size,
            sort: None,
            active_filter_count: 0,
            filters_expanded: false,
            page_generation: 0,
            request_id: 0,
            active_request_id: None,
            active_last_page_request_id: None,
            active_insert_request_id: None,
            active_delete_request_id: None,
            status_title: tr("Select a table"),
            status_description: Some(tr("Choose a table or view from the sidebar to browse its rows.")),
        }
    }

    /// Whether the previous page can be asked for.
    pub fn can_go_previous(&self) -> (r: bool)
        ensures
            r == can_go_previous_spec(self.paging()),
    {
        !self.is_loading && self.offset > 0
    }

    /// Whether the next page can be asked for.
    pub fn can_go_next(&self) -> (r: bool)
        ensures
            r == can_go_next_spec(self.paging()),
    {
        match &self.page {
            Some(page) => !self.is_loading && page.has_next_page,
            None => false,
        }
    }

    fn allocate_request_id(&mut self) -> (id: u64)
        ensures
            id == old(self).request_id,
            final(self).request_id == next_id(old(self).request_id),
            final(self).paging() == (BrowserCore {
                request_id: next_id(old(self).request_id),
                ..old(self).paging()
            }),
            final(self).status_title == old(self).status_title,
            final(self).status_description == old(self).status_description,
    {
        let id = self.request_id;
        self.request_id = if self.request_id == u64::MAX {
            0
        } else {
            self.request_id + 1
        };
        id
    }

    fn load_page(&mut self) -> (a: BrowserAction)
        ensures
            (final(self).paging(), core_action(a)) == load_page_spec(old(self).paging()),
            core_action(a) is LoadPage ==> translated("Loading rows"@, final(self).status_title@)
                && (final(self).status_description matches Some(d) && translated(
                "Fetching the selected page from PostgreSQL."@,
                d@,
            )),
            !(core_action(a) is LoadPage) ==> final(self).status_title == old(self).status_title
                && final(self).status_description == old(self).status_description,
    {
        if !self.connected || self.object.is_none() {
            return BrowserAction::Nothing;
        }
        self.active_last_page_request_id = None;
        self.is_loading = true;
        self.is_error = false;
        self.status_title = tr("Loading rows");
        self.status_description = Some(tr("Fetching the selected page from PostgreSQL."));
        self.page = None;
        let id = self.allocate_request_id();
        self.active_request_id = Some(id);
        BrowserAction::LoadPage { id, offset: self.offset, page_size: self.page_size }
    }

    fn load_last_page_offset(&mut self) -> (a: BrowserAction)
        ensures
            (final(self).paging(), core_action(a)) == load_last_page_spec(old(self).paging()),
            final(self).status_title == old(self).status_title,
            final(self).status_description == old(self).status_description,
    {
        if !self.connected || self.object.is_none() {
            return BrowserAction::Nothing;
        }
        self.is_loading = true;
        let id = self.allocate_request_id();
        self.active_last_page_request_id = Some(id);
        BrowserAction::LoadLastPageOffset { id, page_size: self.page_size }
    }

    /// Applies an event and returns what the application must do.
    pub fn update(&mut self, event: TableBrowserMsg) -> (a: BrowserAction)
        ensures
            (final(self).paging(), core_action(a)) == browser_step(old(self).paging(), event),
            status_after(
                old(self).status_title@,
                old(self).status_description,
                old(self).paging(),
                event,
                core_action(a),
                final(self).status_title@,
                final(self).status_description,
            ),
    {
        match event {
            TableBrowserMsg::PageLoaded { .. } | TableBrowserMsg::LastPageOffsetLoaded { .. } => {
                self.take_load_answer(event)
            },
            TableBrowserMsg::InsertRowConfirmed | TableBrowserMsg::RowInserted { .. }
            | TableBrowserMsg::DeleteRowConfirmed { .. } | TableBrowserMsg::RowDeleted { .. } => {
                self.update_rows(event)
            },
            _ => self.update_view(event),
        }
    }

    #[verifier::rlimit(60)]
    fn update_view(&mut self, event: TableBrowserMsg) -> (a: BrowserAction)
        requires
            !(event is PageLoaded || event is LastPageOffsetLoaded || event is InsertRowConfirmed
                || event is RowInserted || event is DeleteRowConfirmed || event is RowDeleted),
        ensures
            (final(self).paging(), core_action(a)) == browser_step(old(self).paging(), event),
            core_action(a) is LoadPage ==> translated("Loading rows"@, final(self).status_title@)
                && (final(self).status_description matches Some(d) && translated(
                "Fetching the selected page from PostgreSQL."@,
                d@,
            )),
            !(core_action(a) is LoadPage) ==> final(self).status_title == old(self).status_title
                && final(self).status_description == old(self).status_description,
    {
        match event {
            TableBrowserMsg::Open(object) => {
                self.connected = true;
                self.object = Some(object);
                self.offset = 0;
                self.active_filter_count = 0;
                self.sort = None;
                self.filters_expanded = false;
                self.load_page()
            },
            TableBrowserMsg::ObjectRenamed(object) => {
                self.object = Some(object);
                self.offset = 0;
                self.load_page()
            },
            TableBrowserMsg::Refresh => self.load_page(),
            TableBrowserMsg::SchemaChanged => {
                self.offset = 0;
                self.active_filter_count = 0;
                self.sort = None;
                self.filters_expanded = false;
                self.load_page()
            },
            TableBrowserMsg::FirstPage => {
                if self.can_go_previous() {
                    self.offset = 0;
                    self.load_page()
                } else {
                    BrowserAction::Nothing
                }
            },
            TableBrowserMsg::PreviousPage => {
                self.offset = if self.offset >= self.page_size {
                    self.offset - self.page_size
                } else {
                    0
                };
                self.load_page()
            },
            TableBrowserMsg::NextPage => {
                if self.can_go_next() {
                    self.offset = if self.offset as u64 + self.page_size as u64 > u32::MAX as u64 {
                        u32::MAX
                    } else {
                        self.offset + self.page_size
                    };
                    self.load_page()
                } else {
                    BrowserAction::Nothing
                }
            },
            TableBrowserMsg::LastPage => {
                if self.can_go_next() {
                    self.load_last_page_offset()
                } else {
                    BrowserAction::Nothing
                }
            },
            TableBrowserMsg::PageSizeChanged(size) => {
                if size == self.page_size {
                    BrowserAction::Nothing
                } else {
                    self.page_size = size;
                    self.offset = 0;
                    self.load_page()
                }
            },
            TableBrowserMsg::ToggleFilters => {
                self.filters_expanded = !self.filters_expanded;
                BrowserAction::Nothing
            },
            TableBrowserMsg::FiltersApplied(count) => {
                self.active_filter_count = count;
                self.filters_expanded = count > 0;
                self.offset = 0;
                self.load_page()
            },
            TableBrowserMsg::FiltersCleared => {
                self.active_filter_count = 0;
                self.offset = 0;
                self.load_page()
            },
            TableBrowserMsg::SortChanged(clicked) => {
                let current = copy_sort(&self.sort);
                let next = next_sort_for_header_click(current.as_ref(), clicked);
                let unchanged = match (&self.sort, &next) {
                    (None, None) => true,
                    (Some(a), Some(b)) => a.column_name == b.column_name && a.direction
                        == b.direction,
                    _ => false,
                };
                if unchanged {
                    BrowserAction::Nothing
                } else {
                    self.sort = next;
                    self.offset = 0;
                    self.load_page()
                }
            },
            _ => BrowserAction::Nothing,
        }
    }

    fn take_load_answer(&mut self, event: TableBrowserMsg) -> (a: BrowserAction)
        requires
            event is PageLoaded || event is LastPageOffsetLoaded,
        ensures
            (final(self).paging(), core_action(a)) == browser_step(old(self).paging(), event),
            status_after(
                old(self).status_title@,
                old(self).status_description,
                old(self).paging(),
                event,
                core_action(a),
                final(self).status_title@,
                final(self).status_description,
            ),
    {
        match event {
            TableBrowserMsg::PageLoaded { id, result } => {
                if self.active_request_id != Some(id) {
                    return BrowserAction::Nothing;
                }
                self.active_request_id = None;
                self.is_loading = false;
                match result {
                    Ok(page) => {
                        self.is_error = false;
                        self.status_title = String::new();
                        self.status_description = None;
                        let drop_sort = match &self.sort {
                            Some(sort) => !has_column(&page.columns, &sort.column_name),
                            None => false,
                        };
                        if drop_sort {
                            self.sort = None;
                        }
                        self.page = Some(page);
                        self.page_generation = if self.page_generation == u64::MAX {
                            0
                        } else {
                            self.page_generation + 1
                        };
                    },
                    Err(error) => {
                        self.is_error = true;
                        self.status_title = tr("Loading table failed");
                        self.status_description = Some(error);
                        self.page = None;
                    },
                }
                BrowserAction::Render
            },
            TableBrowserMsg::LastPageOffsetLoaded { id, result } => {
                if self.active_last_page_request_id != Some(id) {
                    return BrowserAction::Nothing;
                }
                self.active_last_page_request_id = None;
                self.is_loading = false;
                match result {
                    Ok(offset) => {
                        self.offset = offset;
                        self.load_page()
                    },
                    Err(error) => BrowserAction::Warn {
                        heading: "Loading last page failed",
                        detail: error,
                    },
                }
            },
            _ => BrowserAction::Nothing,
        }
    }

    fn update_rows(&mut self, event: TableBrowserMsg) -> (a: BrowserAction)
        requires
            event is InsertRowConfirmed || event is RowInserted || event is DeleteRowConfirmed
                || event is RowDeleted,
        ensures
            (final(self).paging(), core_action(a)) == browser_step(old(self).paging(), event),
            status_after(
                old(self).status_title@,
                old(self).status_description,
                old(self).paging(),
                event,
                core_action(a),
                final(self).status_title@,
                final(self).status_description,
            ),
    {
        match event {
            TableBrowserMsg::InsertRowConfirmed => {
                if !self.connected {
                    return BrowserAction::Nothing;
                }
                self.is_loading = true;
                let id = self.allocate_request_id();
                self.active_insert_request_id = Some(id);
                self.active_delete_request_id = None;
                BrowserAction::RunInsert { id }
            },
            TableBrowserMsg::RowInserted { id, result } => {
                if self.active_insert_request_id != Some(id) {
                    return BrowserAction::Nothing;
                }
                self.active_insert_request_id = None;
                self.is_loading = false;
                match result {
                    InsertRowResult::Inserted(page) => {
                        self.is_error = false;
                        self.status_title = String::new();
                        self.status_description = None;
                        self.page = Some(page);
                        self.page_generation = if self.page_generation == u64::MAX {
                            0
                        } else {
                            self.page_generation + 1
                        };
                        BrowserAction::RenderWithNotice("Row inserted.")
                    },
                    InsertRowResult::InsertFailed(error) => BrowserAction::Warn {
                        heading: "Inserting row failed",
                        detail: error,
                    },
                    InsertRowResult::ReloadFailed(error) => BrowserAction::Warn {
                        heading: "Reloading table failed",
                        detail: error,
                    },
                }
            },
            TableBrowserMsg::DeleteRowConfirmed { page_generation, row_index } => {
                if page_generation != self.page_generation || !self.connected {
                    return BrowserAction::Nothing;
                }
                let deletable = match &self.page {
                    Some(page) => page.object.kind == DatabaseObjectKind::Table && row_index
                        < page.rows.len(),
                    None => false,
                };
                if !deletable {
                    return BrowserAction::Nothing;
                }
                self.is_loading = true;
                let id = self.allocate_request_id();
                self.active_delete_request_id = Some(id);
                BrowserAction::RunDelete { id, row_index }
            },
            TableBrowserMsg::RowDeleted { id, result } => {
                if self.active_delete_request_id != Some(id) {
                    return BrowserAction::Nothing;
                }
                self.active_delete_request_id = None;
                self.is_loading = false;
                match result {
                    DeleteRowResult::Deleted(page) => {
                        self.is_error = false;
                        self.status_title = String::new();
                        self.status_description = None;
                        self.offset = page.offset;
                        self.page = Some(page);
                        self.page_generation = if self.page_generation == u64::MAX {
                            0
                        } else {
                            self.page_generation + 1
                        };
                        BrowserAction::RenderWithNotice("Row deleted.")
                    },
                    DeleteRowResult::DeleteFailed(error) => BrowserAction::Warn {
                        heading: "Deleting row failed",
                        detail: error,
                    },
                    DeleteRowResult::ReloadFailed(error) => BrowserAction::Warn {
                        heading: "Reloading table failed",
                        detail: error,
                    },
                }
            },
            _ => BrowserAction::Nothing,
        }
    }
}

/// A page response whose id is not the outstanding page request's changes
/// nothing and asks for nothing.
pub proof fn stale_page_response_is_ignored(s: BrowserCore, id: u64, result: Result<TablePage, String>)
    requires
        s.active_request_id != Some(id),
    ensures
        browser_step(s, TableBrowserMsg::PageLoaded { id, result }).0 == s,
        browser_step(s, TableBrowserMsg::PageLoaded { id, result }).1 is Nothing,
{
}

/// A row count response whose id is not the outstanding count request's
/// changes nothing and asks for nothing.
pub proof fn stale_last_page_response_is_ignored(
    s: BrowserCore,
    id: u64,
    result: Result<u32, String>,
)
    requires
        s.active_last_page_request_id != Some(id),
    ensures
        browser_step(s, TableBrowserMsg::LastPageOffsetLoaded { id, result }).0 == s,
        browser_step(s, TableBrowserMsg::LastPageOffsetLoaded { id, result }).1 is Nothing,
{
}

/// Every request the browser issues carries the next unused id, which
/// becomes the only id whose response is accepted; issuing a page request
/// withdraws any outstanding row count request.
pub proof fn issued_requests_carry_fresh_ids(s: BrowserCore, e: TableBrowserMsg)
    ensures
        browser_step(s, e).1 matches CoreAction::LoadPage { id, .. } ==> {
            &&& id == s.request_id
            &&& browser_step(s, e).0.request_id == next_id(s.request_id)
            &&& browser_step(s, e).0.active_request_id == Some(id)
            &&& browser_step(s, e).0.active_last_page_request_id is None
        },
        browser_step(s, e).1 matches CoreAction::LoadLastPageOffset { id, .. } ==> {
            &&& id == s.request_id
            &&& browser_step(s, e).0.request_id == next_id(s.request_id)
            &&& browser_step(s, e).0.active_last_page_request_id == Some(id)
        },
{
}

/// Paging, sorting, filtering and their answers keep the loading indicator
/// on exactly while a page or row count request is outstanding, with at
/// most one of them outstanding. Inserts and deletes are left out: their
/// answers turn the indicator off even while a page request runs.
pub proof fn browser_step_keeps_loading_consistent(s: BrowserCore, e: TableBrowserMsg)
    requires
        browser_wf(s),
        !(e is RowInserted),
        !(e is RowDeleted),
        !(e is InsertRowConfirmed),
        !(e is DeleteRowConfirmed),
    ensures
        browser_wf(browser_step(s, e).0),
{
}

/// A request is answered exactly once: after its response is taken in, the
/// same response is stale.
pub proof fn page_response_is_taken_once(s: BrowserCore, id: u64, result: Result<TablePage, String>)
    requires
        s.active_request_id == Some(id),
    ensures
        browser_step(s, TableBrowserMsg::PageLoaded { id, result }).0.active_request_id is None,
        !browser_step(s, TableBrowserMsg::PageLoaded { id, result }).0.is_loading || browser_step(
            s,
            TableBrowserMsg::PageLoaded { id, result },
        ).0.active_last_page_request_id is Some,
{
}

/// Changing what the table shows (another object, page size, filters or
/// sort) loads again from the first row.
pub proof fn view_changes_restart_at_first_row(s: BrowserCore, e: TableBrowserMsg)
    requires
        s.connected,
        s.object is Some,
        e is Open || e is SchemaChanged || e is ObjectRenamed || e is FiltersApplied
            || e is FiltersCleared || (e is PageSizeChanged && e->PageSizeChanged_0 != s.page_size)
            || (e is SortChanged && !same_sort(s.sort, next_sort_spec(s.sort, e->SortChanged_0))),
    ensures
        browser_step(s, e).0.offset == 0,
        browser_step(s, e).1 matches CoreAction::LoadPage { offset, .. } && offset == 0,
{
}

/// Going back a page never passes the first row: the offset drops by one
/// page, or to 0.
pub proof fn previous_page_stays_in_range(s: BrowserCore)
    requires
        s.connected,
        s.object is Some,
    ensures
        browser_step(s, TableBrowserMsg::PreviousPage).0.offset == (if s.offset >= s.page_size {
            s.offset - s.page_size
        } else {
            0
        }),
{
}

/// The first and last row numbers (counting from 1) shown by a page that
/// starts at `offset` and has `row_count` rows; counts beyond `u32::MAX`
/// count as `u32::MAX`.
pub open spec fn footer_range_spec(offset: u32, row_count: nat) -> (int, int) {
    (
        offset + 1,
        offset + if row_count > u32::MAX {
            u32::MAX as int
        } else {
            row_count as int
        },
    )
}

/// The footer text for the rows `first` to `last`, given the translated
/// template with `{first}` and `{last}` in it.
pub open spec fn footer_rows_text(template: Seq<char>, first: nat, last: nat) -> Seq<char> {
    replace_spec(replace_spec(template, "{first}"@, decimal(first)), "{last}"@, decimal(last))
}

/// Fills the row numbers into the footer template.
pub fn footer_rows(template: &str, first: u64, last: u64) -> (r: String)
    ensures
        r@ == footer_rows_text(template@, first as nat, last as nat),
{
    proof {
        reveal_strlit("{first}");
        reveal_strlit("{last}");
    }
    let with_first = replace_all(template, "{first}", decimal_string(first).as_str());
    replace_all(with_first.as_str(), "{last}", decimal_string(last).as_str())
}

/// `new` is `old` with the cell at (`row`, `column`) replaced by `cell` when
/// that cell exists, and `old` unchanged otherwise.
pub open spec fn rows_after_cell_update(
    old: Seq<Vec<TableCell>>,
    new: Seq<Vec<TableCell>>,
    row: int,
    column: int,
    cell: TableCell,
) -> bool {
    &&& new.len() == old.len()
    &&& forall|i: int| 0 <= i < old.len() && i != row ==> #[trigger] new[i]@ == old[i]@
    &&& 0 <= row < old.len() ==> new[row]@ == if 0 <= column < old[row]@.len() {
        old[row]@.update(column, cell)
    } else {
        old[row]@
    }
}

impl TableBrowser {
    /// The footer: loading, no rows, or which rows of the table are shown.
    pub fn footer_text(&self) -> (r: String)
        ensures
            self.is_loading ==> translated("Loading..."@, r@),
            !self.is_loading && self.page is None ==> r@ == Seq::<char>::empty(),
            !self.is_loading && self.page is Some && self.page->0.rows@.len() == 0 ==> translated(
                "No rows"@,
                r@,
            ),
            !self.is_loading && self.page is Some && self.page->0.rows@.len() > 0 ==> exists|
                template: Seq<char>,
            |
                translated("{first}-{last} rows"@, template) && r@ == #[trigger] footer_rows_text(
                    template,
                    footer_range_spec(self.page->0.offset, self.page->0.rows@.len()).0 as nat,
                    footer_range_spec(self.page->0.offset, self.page->0.rows@.len()).1 as nat,
                ),
    {
        if self.is_loading {
            return tr("Loading...");
        }
        match &self.page {
            None => String::new(),
            Some(page) => {
                if page.rows.len() == 0 {
                    return tr("No rows");
                }
                let first = page.offset as u64 + 1;
                let count = if page.rows.len() > u32::MAX as usize {
                    u32::MAX as u64
                } else {
                    page.rows.len() as u64
                };
                let last = page.offset as u64 + count;
                let template = tr("{first}-{last} rows");
                let r = footer_rows(template.as_str(), first, last);
                assert(footer_range_spec(page.offset, page.rows@.len()).0 as nat == first as nat);
                assert(footer_range_spec(page.offset, page.rows@.len()).1 as nat == last as nat);
                assert(r@ == footer_rows_text(template@, first as nat, last as nat));
                assert(translated("{first}-{last} rows"@, template@));
                r
            },
        }
    }

    /// The title of the header: the object's name, or a generic title.
    pub fn object_title(&self) -> (r: String)
        ensures
            self.object is Some ==> r@ == self.object->0.name@,
            self.object is None ==> translated("Table Browser"@, r@),
    {
        match &self.object {
            Some(object) => object.name.clone(),
            None => tr("Table Browser"),
        }
    }

    /// The caption of the header: the schema and the translated kind, with
    /// ` · ` between them; nothing without an object.
    pub fn object_context(&self) -> (r: String)
        ensures
            self.object is None ==> r@ == Seq::<char>::empty(),
            self.object is Some ==> exists|kind: Seq<char>|
                #![trigger translated(object_kind_text(self.object->0.kind), kind)]
                translated(object_kind_text(self.object->0.kind), kind) && r@
                    == self.object->0.schema@ + " · "@ + kind,
    {
        match &self.object {
            None => String::new(),
            Some(object) => {
                let kind = match object.kind {
                    DatabaseObjectKind::Table => tr("Table"),
                    DatabaseObjectKind::View => tr("View"),
                };
                let mut r = object.schema.clone();
                r.append(" · ");
                r.append(kind.as_str());
                proof {
                    assert(translated(object_kind_text(object.kind), kind@));
                }
                r
            },
        }
    }

    /// The label of the filter button: with the number of active filters in
    /// brackets when there are any.
    pub fn filter_button_label(&self) -> (r: String)
        ensures
            self.active_filter_count == 0 ==> translated("Filters"@, r@),
            self.active_filter_count > 0 ==> exists|label: Seq<char>|
                #![trigger translated("Filters"@, label)]
                translated("Filters"@, label) && r@ == label + " ("@ + decimal(
                    self.active_filter_count as nat,
                ) + ")"@,
    {
        let label = tr("Filters");
        if self.active_filter_count == 0 {
            return label;
        }
        let ghost label_text = label@;
        let mut r = label;
        r.append(" (");
        r.append(decimal_string(self.active_filter_count as u64).as_str());
        r.append(")");
        assert(translated("Filters"@, label_text));
        r
    }

    /// The icon of the status page.
    pub fn status_icon_name(&self) -> (r: &'static str)
        ensures
            r@ == (if self.is_error {
                "dialog-error-symbolic"@
            } else if self.is_loading {
                "view-refresh-symbolic"@
            } else {
                "table-symbolic"@
            }),
    {
        crate::results::status_icon_name(self.is_error, self.is_loading, "table-symbolic")
    }

    /// Takes in the answer to a cell edit made on page generation
    /// `page_generation`. Answers for an older page change nothing; a saved
    /// cell replaces the edited one; a failure is handed back.
    pub fn handle_cell_updated(
        &mut self,
        page_generation: u64,
        row_index: usize,
        column_index: usize,
        result: Result<TableCell, String>,
    ) -> (r: Result<(), String>)
        ensures
            page_generation != old(self).page_generation || old(self).page is None ==> r is Ok
                && final(self).paging() == old(self).paging(),
            page_generation == old(self).page_generation && old(self).page is Some ==> match result {
                Ok(cell) => r is Ok && final(self).page is Some && rows_after_cell_update(
                    old(self).page->0.rows@,
                    final(self).page->0.rows@,
                    row_index as int,
                    column_index as int,
                    cell,
                ) && final(self).paging() == (BrowserCore {
                    page: Some(TablePage { rows: final(self).page->0.rows, ..old(self).page->0 }),
                    ..old(self).paging()
                }),
                Err(e) => r == Err::<(), String>(e) && final(self).paging() == old(self).paging(),
            },
            final(self).status_title == old(self).status_title,
            final(self).status_description == old(self).status_description,
    {
        if page_generation != self.page_generation {
            return Ok(());
        }
        match result {
            Ok(cell) => {
                match &mut self.page {
                    None => Ok(()),
                    Some(page) => {
                        if row_index < page.rows.len() && column_index < page.rows[row_index].len() {
                            let mut row: Vec<TableCell> = Vec::new();
                            std::mem::swap(&mut row, &mut page.rows[row_index]);
                            row.set(column_index, cell);
                            page.rows.set(row_index, row);
                        }
                        Ok(())
                    },
                }
            },
            Err(error) => {
                if self.page.is_none() {
                    return Ok(());
                }
                Err(error)
            },
        }
    }
}

/// Whether the rows of a page can be deleted: it is a table, it has a primary
/// key, and every key column can be written as text.
pub open spec fn can_delete_rows_spec(page: Option<TablePage>) -> bool {
    &&& page is Some
    &&& page->0.object.kind == DatabaseObjectKind::Table
    &&& exists|i: int|
        0 <= i < page->0.columns@.len() && (#[trigger] page->0.columns@[i]).is_primary_key
    &&& forall|i: int|
        0 <= i < page->0.columns@.len() && (#[trigger] page->0.columns@[i]).is_primary_key
            ==> editable_value_type(page->0.columns@[i])
}

impl TableBrowser {
    /// Whether rows of the shown page can be deleted.
    pub fn can_delete_rows(&self) -> (r: bool)
        ensures
            r == can_delete_rows_spec(self.page),
    {
        match &self.page {
            None => false,
            Some(page) => {
                if page.object.kind != DatabaseObjectKind::Table {
                    return false;
                }
                let mut has_key = false;
                let mut i: usize = 0;
                while i < page.columns.len()
                    invariant
                        i <= page.columns.len(),
                        page.object.kind == DatabaseObjectKind::Table,
                        self.page == Some(*page),
                        has_key == exists|j: int|
                            0 <= j < i && (#[trigger] page.columns@[j]).is_primary_key,
                        forall|j: int|
                            0 <= j < i && (#[trigger] page.columns@[j]).is_primary_key
                                ==> editable_value_type(page.columns@[j]),
                    decreases page.columns.len() - i,
                {
                    if page.columns[i].is_primary_key {
                        if !page.columns[i].is_editable_value_type() {
                            assert(page.columns@[i as int].is_primary_key && !editable_value_type(
                                page.columns@[i as int],
                            ));
                            return false;
                        }
                        has_key = true;
                    }
                    i = i + 1;
                }
                has_key
            },
        }
    }
}

/// Why a cell cannot be edited.
#[derive(Clone, Copy, Debug, PartialEq, Eq, Structural)]
pub enum CellEditProblem {
    NotATable,
    CellGone,
    PrimaryKey,
    UnsupportedType,
    NoPrimaryKey,
}

/// Why the cell in column `index` cannot be edited, checked in this order:
/// only tables are edited, the column must exist, key columns stay as they
/// are, the type must be writable as text, and the table needs a key.
pub open spec fn edit_problem_spec(kind: DatabaseObjectKind, columns: Seq<TableColumn>, index: int) -> Option<CellEditProblem> {
    if kind != DatabaseObjectKind::Table {
        Some(CellEditProblem::NotATable)
    } else if index >= columns.len() {
        Some(CellEditProblem::CellGone)
    } else if columns[index].is_primary_key {
        Some(CellEditProblem::PrimaryKey)
    } else if !editable_value_type(columns[index]) {
        Some(CellEditProblem::UnsupportedType)
    } else if !exists|i: int| 0 <= i < columns.len() && (#[trigger] columns[i]).is_primary_key {
        Some(CellEditProblem::NoPrimaryKey)
    } else {
        None
    }
}

/// Why a cell cannot be edited, if it cannot.
pub fn editable_cell_problem(object: &DatabaseObject, columns: &[TableColumn], column_index: usize) -> (r: Option<CellEditProblem>)
    ensures
        r == edit_problem_spec(object.kind, columns@, column_index as int),
{
    if object.kind != DatabaseObjectKind::Table {
        return Some(CellEditProblem::NotATable);
    }
    if column_index >= columns.len() {
        return Some(CellEditProblem::CellGone);
    }
    if columns[column_index].is_primary_key {
        return Some(CellEditProblem::PrimaryKey);
    }
    if !columns[column_index].is_editable_value_type() {
        return Some(CellEditProblem::UnsupportedType);
    }
    let mut i: usize = 0;
    while i < columns.len()
        invariant
            i <= columns.len(),
            object.kind == DatabaseObjectKind::Table,
            column_index < columns.len(),
            !columns@[column_index as int].is_primary_key,
            editable_value_type(columns@[column_index as int]),
            forall|j: int| 0 <= j < i ==> !(#[trigger] columns@[j]).is_primary_key,
        decreases columns.len() - i,
    {
        if columns[i].is_primary_key {
            assert(columns@[i as int].is_primary_key);
            return None;
        }
        i = i + 1;
    }
    Some(CellEditProblem::NoPrimaryKey)
}

/// The text of the message for a reason a cell cannot be edited.
pub open spec fn cell_edit_problem_text(problem: CellEditProblem) -> Seq<char> {
    match problem {
        CellEditProblem::NotATable => "Only tables can be edited."@,
        CellEditProblem::CellGone => "The selected cell is no longer available."@,
        CellEditProblem::PrimaryKey => "Primary key columns are read-only for now."@,
        CellEditProblem::UnsupportedType => "This column type is not editable yet."@,
        CellEditProblem::NoPrimaryKey => "Editing requires a primary key."@,
    }
}

/// The message for a reason a cell cannot be edited.
pub fn cell_edit_problem_msgid(problem: CellEditProblem) -> (r: &'static str)
    ensures
        r@ == cell_edit_problem_text(problem),
{
    match problem {
        CellEditProblem::NotATable => "Only tables can be edited.",
        CellEditProblem::CellGone => "The selected cell is no longer available.",
        CellEditProblem::PrimaryKey => "Primary key columns are read-only for now.",
        CellEditProblem::UnsupportedType => "This column type is not editable yet.",
        CellEditProblem::NoPrimaryKey => "Editing requires a primary key.",
    }
}

/// Whether the cell in column `column_index` can be edited, with the
/// translated reason when it cannot.
pub fn validate_editable_cell(object: &DatabaseObject, columns: &[TableColumn], column_index: usize) -> (r: Result<(), String>)
    ensures
        match edit_problem_spec(object.kind, columns@, column_index as int) {
            None => r is Ok,
            Some(problem) => (r matches Err(reason) && translated(
                cell_edit_problem_text(problem),
                reason@,
            )),
        },
{
    match editable_cell_problem(object, columns, column_index) {
        None => Ok(()),
        Some(problem) => Err(tr(cell_edit_problem_msgid(problem))),
    }
}

/// What asking to edit a cell of the browsed page gives.
#[derive(Debug)]
pub enum CellEditRequest {
    /// Nothing: a load runs, or no page, column or cell is there.
    Ignore,
    /// The cell cannot be edited; show this reason under the translated
    /// heading "Cell cannot be edited".
    Refused(String),
    /// Open the editor for the cell; its edit belongs to page generation
    /// `page_generation`, and it offers "Set NULL" when `offers_null`.
    Open { page_generation: u64, row_index: usize, column_index: usize, offers_null: bool },
}

/// The cell at (`row`, `column`) is on `page`.
pub open spec fn cell_on_page(page: TablePage, row: int, column: int) -> bool {
    &&& 0 <= column < page.columns@.len()
    &&& 0 <= row < page.rows@.len()
    &&& column < page.rows@[row]@.len()
}

impl TableBrowser {
    /// Asking to edit the cell at (`row_index`, `column_index`): ignored
    /// while loading or when the cell is not on the page, refused with the
    /// reason when it cannot be edited, otherwise the editor opens for the
    /// current page generation.
    pub fn request_cell_edit(&self, row_index: usize, column_index: usize) -> (r: CellEditRequest)
        ensures
            self.is_loading || !(self.page matches Some(p) && cell_on_page(
                p,
                row_index as int,
                column_index as int,
            )) ==> r is Ignore,
            !self.is_loading && (self.page matches Some(p) && cell_on_page(
                p,
                row_index as int,
                column_index as int,
            )) ==> match edit_problem_spec(
                self.page->0.object.kind,
                self.page->0.columns@,
                column_index as int,
            ) {
                Some(problem) => (r matches CellEditRequest::Refused(reason) && translated(
                    cell_edit_problem_text(problem),
                    reason@,
                )),
                None => r == (CellEditRequest::Open {
                    page_generation: self.page_generation,
                    row_index,
                    column_index,
                    offers_null: self.page->0.columns@[column_index as int].is_nullable,
                }),
            },
    {
        if self.is_loading {
            return CellEditRequest::Ignore;
        }
        match &self.page {
            None => CellEditRequest::Ignore,
            Some(page) => {
                if column_index >= page.columns.len() || row_index >= page.rows.len()
                    || column_index >= page.rows[row_index].len() {
                    return CellEditRequest::Ignore;
                }
                match validate_editable_cell(&page.object, page.columns.as_slice(), column_index) {
                    Err(reason) => CellEditRequest::Refused(reason),
                    Ok(()) => CellEditRequest::Open {
                        page_generation: self.page_generation,
                        row_index,
                        column_index,
                        offers_null: crate::grid::cell_editor_offers_null(
                            &page.columns[column_index],
                        ),
                    },
                }
            },
        }
    }

    /// Whether a submitted edit is saved: only one made on the current page
    /// generation, with a connection, for a row that is still on the page.
    pub fn takes_cell_edit(&self, submission: &CellEditSubmission) -> (r: bool)
        ensures
            r == (submission.page_generation == self.page_generation && self.connected && (
            self.page matches Some(p) && submission.row_index < p.rows@.len())),
    {
        if submission.page_generation != self.page_generation || !self.connected {
            return false;
        }
        match &self.page {
            None => false,
            Some(page) => submission.row_index < page.rows.len(),
        }
    }
}

/// The PostgreSQL error codes for a relation or schema that does not exist
/// (`42P01`, `3F000`).
pub open spec fn missing_relation_code(code: Option<Seq<char>>) -> bool {
    code == Some("42P01"@) || code == Some("3F000"@)
}

/// Whether a database error code says the relation is gone.
pub fn is_missing_relation(code: Option<&str>) -> (r: bool)
    ensures
        r == missing_relation_code(match code {
            Some(c) => Some(c@),
            None => None,
        }),
{
    match code {
        Some(c) => same_text(c, "42P01") || same_text(c, "3F000"),
        None => false,
    }
}

/// The message shown when a page cannot be loaded: for a missing relation,
/// the translated notice with `schema.name` filled in for `{name}`;
/// otherwise the database's own message.
pub fn table_load_error_message(object: &DatabaseObject, code: Option<&str>, error: &str) -> (r: String)
    ensures
        !missing_relation_code(match code {
            Some(c) => Some(c@),
            None => None,
        }) ==> r@ == error@,
        missing_relation_code(match code {
            Some(c) => Some(c@),
            None => None,
        }) ==> exists|template: Seq<char>|
            #![trigger translated(missing_object_text(object.kind), template)]
            translated(missing_object_text(object.kind), template) && r@ == replace_spec(
                template,
                "{name}"@,
                crate::models::qualified_name_spec(*object),
            ),
{
    if !is_missing_relation(code) {
        return error.to_string();
    }
    let name = object.qualified_name();
    let template = match object.kind {
        DatabaseObjectKind::Table => tr(
            "The table {name} could not be found. It may have been renamed or dropped.",
        ),
        DatabaseObjectKind::View => tr(
            "The view {name} could not be found. It may have been renamed or dropped.",
        ),
    };
    proof {
        reveal_strlit("{name}");
    }
    let r = replace_all(template.as_str(), "{name}", name.as_str());
    proof {
        assert(translated(missing_object_text(object.kind), template@));
    }
    r
}

/// The text of the note that a browsed object could not be found.
pub open spec fn missing_object_text(kind: DatabaseObjectKind) -> Seq<char> {
    match kind {
        DatabaseObjectKind::Table => "The table {name} could not be found. It may have been renamed or dropped."@,
        DatabaseObjectKind::View => "The view {name} could not be found. It may have been renamed or dropped."@,
    }
}

/// The text of the name of a kind of object.
pub open spec fn object_kind_text(kind: DatabaseObjectKind) -> Seq<char> {
    match kind {
        DatabaseObjectKind::Table => "Table"@,
        DatabaseObjectKind::View => "View"@,
    }
}

/// A character that file names cannot hold on common systems.
pub open spec fn unsafe_filename_char(c: char) -> bool {
    c == '/' || c == '\\' || c == ':' || c == '*' || c == '?' || c == '"' || c == '<' || c == '>'
        || c == '|'
}

/// `value` with each unsafe character turned into `_`; `_` for an empty
/// value.
pub open spec fn sanitized_spec(value: Seq<char>) -> Seq<char> {
    if value.len() == 0 {
        "_"@
    } else {
        value.map_values(|c: char| if unsafe_filename_char(c) { '_' } else { c })
    }
}

/// A sanitized name is never empty and holds no character that file names
/// may not hold.
pub proof fn sanitized_names_are_safe(value: Seq<char>)
    ensures
        sanitized_spec(value).len() > 0,
        forall|i: int|
            0 <= i < sanitized_spec(value).len() ==> !unsafe_filename_char(
                #[trigger] sanitized_spec(value)[i],
            ),
{
    reveal_strlit("_");
}

/// Makes a name usable as part of a file name.
pub fn sanitize_filename_part(value: &str) -> (r: String)
    ensures
        r@ == sanitized_spec(value@),
{
    let chars = chars_of(value);
    if chars.len() == 0 {
        proof {
            reveal_strlit("_");
        }
        return "_".to_string();
    }
    let mut out: Vec<char> = Vec::new();
    let mut i: usize = 0;
    while i < chars.len()
        invariant
            i <= chars.len(),
            chars@ == value@,
            out@ == value@.take(i as int).map_values(
                |c: char| if unsafe_filename_char(c) { '_' } else { c },
            ),
        decreases chars.len() - i,
    {
        let c = chars[i];
        let mapped = if c == '/' || c == '\\' || c == ':' || c == '*' || c == '?' || c == '"' || c
            == '<' || c == '>' || c == '|' {
            '_'
        } else {
            c
        };
        out.push(mapped);
        assert(value@.take(i + 1) =~= value@.take(i as int).push(c));
        assert(out@ =~= value@.take(i + 1).map_values(
            |c: char| if unsafe_filename_char(c) { '_' } else { c },
        ));
        i = i + 1;
    }
    assert(value@.take(chars.len() as int) =~= value@);
    string_from_chars(&out)
}

/// The suggested file name for exporting an object: `schema.name.csv`, each
/// part made safe.
pub fn csv_filename_for_object(object: &DatabaseObject) -> (r: String)
    ensures
        r@ == sanitized_spec(object.schema@) + "."@ + sanitized_spec(object.name@) + ".csv"@,
{
    let mut r = sanitize_filename_part(object.schema.as_str());
    r.append(".");
    r.append(sanitize_filename_part(object.name.as_str()).as_str());
    r.append(".csv");
    r
}

/// The delimiter chosen in the export dialog: semicolon at 1, tab at 2, comma
/// otherwise.
pub fn delimiter_from_index(index: u32) -> (r: CsvDelimiter)
    ensures
        r == (if index == 1 {
            CsvDelimiter::Semicolon
        } else if index == 2 {
            CsvDelimiter::Tab
        } else {
            CsvDelimiter::Comma
        }),
{
    match index {
        1 => CsvDelimiter::Semicolon,
        2 => CsvDelimiter::Tab,
        _ => CsvDelimiter::Comma,
    }
}

/// The position of the page size among the offered sizes; 1 when it is not
/// one of them.
pub fn selected_page_size_index(options: &[u32], page_size: u32) -> (r: u32)
    requires
        options@.len() <= u32::MAX,
    ensures
        (exists|i: int| 0 <= i < options@.len() && options@[i] == page_size) ==> (r
            < options@.len() && options@[r as int] == page_size && forall|j: int|
            0 <= j < r ==> options@[j] != page_size),
        !(exists|i: int| 0 <= i < options@.len() && options@[i] == page_size) ==> r == 1,
{
    let mut i: usize = 0;
    while i < options.len()
        invariant
            i <= options.len() <= u32::MAX,
            forall|j: int| 0 <= j < i ==> options@[j] != page_size,
        decreases options.len() - i,
    {
        if options[i] == page_size {
            return i as u32;
        }
        i = i + 1;
    }
    1
}

/// The style class of a cell of the given type group.
pub fn type_group_class(type_group: ColumnTypeGroup) -> (r: Option<&'static str>)
    ensures
        match type_group {
            ColumnTypeGroup::Boolean => r == Some("cell-type-boolean"),
            ColumnTypeGroup::Binary => r == Some("cell-type-binary"),
            ColumnTypeGroup::DateTime => r == Some("cell-type-datetime"),
            ColumnTypeGroup::Json => r == Some("cell-type-json"),
            ColumnTypeGroup::Numeric => r == Some("cell-type-numeric"),
            ColumnTypeGroup::Text => r == Some("cell-type-text"),
            ColumnTypeGroup::Other => r is None,
        },
{
    match type_group {
        ColumnTypeGroup::Boolean => Some("cell-type-boolean"),
        ColumnTypeGroup::Binary => Some("cell-type-binary"),
        ColumnTypeGroup::DateTime => Some("cell-type-datetime"),
        ColumnTypeGroup::Json => Some("cell-type-json"),
        ColumnTypeGroup::Numeric => Some("cell-type-numeric"),
        ColumnTypeGroup::Text => Some("cell-type-text"),
        ColumnTypeGroup::Other => None,
    }
}

} // verus!
