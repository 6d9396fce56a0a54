//! The smaller views: the table view that switches between content and
//! structure, the SQL editor with its history, and the start screen.

use vstd::prelude::*;
use crate::actions::{normalize_new_object_name, normalized_name_spec};
use crate::i18n::{tr, translated};
use crate::models::{DatabaseObject, DatabaseObjectKind, QueryHistoryEntry, SavedConnection};
use crate::text::decimal;

verus! {

/// What a table tab shows.
#[derive(Clone, Copy, Debug, PartialEq, Eq, Structural)]
pub enum TableViewMode {
    Content,
    Structure,
}

impl TableViewMode {
    /// The page of the mode stack.
    pub fn visible_child_name(self) -> (r: &'static str)
        ensures
            r@ == (match self {
                TableViewMode::Content => "content"@,
                TableViewMode::Structure => "structure"@,
            }),
    {
        match self {
            TableViewMode::Content => "content",
            TableViewMode::Structure => "structure",
        }
    }
}

/// A table tab: the browsed object and which page shows.
#[derive(Debug)]
pub struct TableView {
    /// A connection was handed over with the object.
    pub connected: bool,
    pub object: Option<DatabaseObject>,
    pub mode: TableViewMode,
    /// The structure page was opened for the current object.
    pub structure_loaded: bool,
}

/// What happens to a table tab.
#[derive(Debug)]
pub enum TableViewMsg {
    Open(DatabaseObject),
    ObjectRenamed(DatabaseObject),
    Refresh,
    ShowContent,
    ShowStructure,
    ToggleFilters,
    /// The browser copied something and says so with this notice.
    BrowserCopied(String),
}

/// What the tab asks the application to do.
#[derive(Debug)]
pub enum TableViewAction {
    /// Show the content page and open the object in the browser.
    OpenBrowser(DatabaseObject),
    /// Tell the browser the object was renamed, and load the structure of
    /// the renamed object when `open_structure` says so.
    RenameInBrowser { object: DatabaseObject, open_structure: bool },
    RefreshBrowser,
    RefreshStructure,
    ShowContent,
    /// Show the structure page, and load the object's structure when `open`
    /// says so.
    ShowStructure { open: bool },
    ToggleFilters,
    /// Pass the notice on.
    Copied(String),
}

/// The structure page can be shown: the tab browses a table.
pub open spec fn structure_available(v: TableView) -> bool {
    v.object matches Some(o) && o.kind == DatabaseObjectKind::Table
}

/// Opening the structure loads it once per object, and only for a table on
/// a connection.
pub open spec fn opens_structure(v: TableView) -> bool {
    !v.structure_loaded && structure_available(v) && v.connected
}

impl TableView {
    /// A tab with nothing opened.
    pub fn new() -> (r: TableView)
        ensures
            !r.connected,
            r.object is None,
            r.mode == TableViewMode::Content,
            !r.structure_loaded,
    {
        TableView { connected: false, object: None, mode: TableViewMode::Content, structure_loaded: false }
    }

    /// Whether the structure page can be shown.
    pub fn can_show_structure(&self) -> (r: bool)
        ensures
            r == structure_available(*self),
    {
        match &self.object {
            Some(o) => o.kind == DatabaseObjectKind::Table,
            None => false,
        }
    }

    fn open_structure(&mut self) -> (open: bool)
        ensures
            open == opens_structure(*old(self)),
            final(self).structure_loaded == (old(self).structure_loaded || open),
            final(self).connected == old(self).connected,
            final(self).object == old(self).object,
            final(self).mode == old(self).mode,
    {
        if self.structure_loaded || !self.can_show_structure() || !self.connected {
            return false;
        }
        self.structure_loaded = true;
        true
    }

    /// Takes a message and says what the application must do.
    pub fn update(&mut self, msg: TableViewMsg) -> (a: TableViewAction)
        ensures
            (old(self).mode == TableViewMode::Structure ==> structure_available(*old(self))) && (
            msg matches TableViewMsg::ObjectRenamed(o) ==> o.kind == DatabaseObjectKind::Table)
                ==> (final(self).mode == TableViewMode::Structure ==> structure_available(
                *final(self),
            )),
            match msg {
                TableViewMsg::Open(object) => {
                    &&& a == TableViewAction::OpenBrowser(object)
                    &&& final(self).connected
                    &&& final(self).object == Some(object)
                    &&& final(self).mode == TableViewMode::Content
                    &&& !final(self).structure_loaded
                },
                TableViewMsg::ObjectRenamed(object) => {
                    let reopened = TableView {
                        object: Some(object),
                        structure_loaded: false,
                        ..*old(self)
                    };
                    let open = old(self).mode == TableViewMode::Structure && opens_structure(
                        reopened,
                    );
                    &&& a == TableViewAction::RenameInBrowser { object, open_structure: open }
                    &&& final(self).object == Some(object)
                    &&& final(self).structure_loaded == open
                    &&& final(self).mode == old(self).mode
                },
                TableViewMsg::Refresh => {
                    &&& *final(self) == *old(self)
                    &&& a == (if old(self).mode == TableViewMode::Content {
                        TableViewAction::RefreshBrowser
                    } else {
                        TableViewAction::RefreshStructure
                    })
                },
                TableViewMsg::ShowContent => {
                    &&& a == TableViewAction::ShowContent
                    &&& final(self).mode == TableViewMode::Content
                    &&& final(self).object == old(self).object
                    &&& final(self).structure_loaded == old(self).structure_loaded
                },
                TableViewMsg::ShowStructure => if structure_available(*old(self)) {
                    &&& a == TableViewAction::ShowStructure { open: opens_structure(*old(self)) }
                    &&& final(self).mode == TableViewMode::Structure
                    &&& final(self).structure_loaded == (old(self).structure_loaded || opens_structure(
                        *old(self),
                    ))
                    &&& final(self).object == old(self).object
                } else {
                    &&& a == TableViewAction::ShowContent
                    &&& final(self).mode == TableViewMode::Content
                    &&& final(self).object == old(self).object
                    &&& final(self).structure_loaded == old(self).structure_loaded
                },
                TableViewMsg::ToggleFilters => {
                    &&& a == TableViewAction::ToggleFilters
                    &&& *final(self) == *old(self)
                },
                TableViewMsg::BrowserCopied(message) => {
                    &&& a == TableViewAction::Copied(message)
                    &&& *final(self) == *old(self)
                },
            },
    {
        match msg {
            TableViewMsg::Open(object) => {
                self.connected = true;
                self.object = Some(object.copied());
                self.mode = TableViewMode::Content;
                self.structure_loaded = false;
                TableViewAction::OpenBrowser(object)
            },
            TableViewMsg::ObjectRenamed(object) => {
                self.object = Some(object.copied());
                self.structure_loaded = false;
                let mut open = false;
                if self.mode == TableViewMode::Structure {
                    open = self.open_structure();
                }
                TableViewAction::RenameInBrowser { object, open_structure: open }
            },
            TableViewMsg::Refresh => match self.mode {
                TableViewMode::Content => TableViewAction::RefreshBrowser,
                TableViewMode::Structure => TableViewAction::RefreshStructure,
            },
            TableViewMsg::ShowContent => {
                self.mode = TableViewMode::Content;
                TableViewAction::ShowContent
            },
            TableViewMsg::ShowStructure => {
                if !self.can_show_structure() {
                    self.mode = TableViewMode::Content;
                    TableViewAction::ShowContent
                } else {
                    self.mode = TableViewMode::Structure;
                    let open = self.open_structure();
                    TableViewAction::ShowStructure { open }
                }
            },
            TableViewMsg::ToggleFilters => TableViewAction::ToggleFilters,
            TableViewMsg::BrowserCopied(message) => TableViewAction::Copied(message),
        }
    }

    /// The tab's title: the object's name, or a translated placeholder.
    pub fn object_title(&self) -> (r: String)
        ensures
            self.object matches Some(o) ==> r@ == o.name@,
            self.object is None ==> translated("Table"@, r@),
    {
        match &self.object {
            Some(o) => o.name.clone(),
            None => tr("Table"),
        }
    }

    /// The line under the title: the schema and the translated kind, or
    /// nothing without an object.
    pub fn object_context(&self) -> (r: String)
        ensures
            self.object is None ==> r@.len() == 0,
            self.object matches Some(o) ==> exists|kind: Seq<char>|
                #![trigger translated(crate::table_browser::object_kind_text(o.kind), kind)]
                translated(crate::table_browser::object_kind_text(o.kind), kind) && r@ == o.schema@
                    + " · "@ + kind,
    {
        match &self.object {
            None => String::new(),
            Some(o) => {
                let kind = match o.kind {
                    DatabaseObjectKind::Table => tr("Table"),
                    DatabaseObjectKind::View => tr("View"),
                };
                let mut r = o.schema.clone();
                r.append(" · ");
                r.append(kind.as_str());
                proof {
                    assert(translated(crate::table_browser::object_kind_text(o.kind), kind@));
                }
                r
            },
        }
    }
}

/// The line under a history entry: when it ran, as the clock formatted it,
/// or a translated note when the time could not be read.
pub fn history_subtitle_text(formatted: Option<String>) -> (r: String)
    ensures
        formatted matches Some(t) ==> r == t,
        formatted is None ==> translated("Unknown time"@, r@),
{
    match formatted {
        Some(t) => t,
        None => tr("Unknown time"),
    }
}

/// The SQL editor of a query tab: whether a query runs, and the history
/// with its selected entry.
#[derive(Debug)]
pub struct SqlEditor {
    pub is_running: bool,
    pub history: Vec<QueryHistoryEntry>,
    pub selected_history_index: Option<usize>,
}

/// What happens to the editor.
#[derive(Debug)]
pub enum SqlEditorMsg {
    SetRunning(bool),
    SetHistory(Vec<QueryHistoryEntry>),
    Focus,
    RunRequested,
    CancelRequested,
    HistoryRowSelected(usize),
    InsertSelectedHistoryRequested,
    ClearHistoryRequested,
}

/// What the editor asks the application to do.
#[derive(Debug)]
pub enum SqlEditorAction {
    Nothing,
    /// List the history again, select the selected entry and show its
    /// preview.
    RenderHistory,
    /// Show the preview of the selected entry.
    ShowPreview,
    Focus,
    Run,
    Cancel,
    /// Close the history popover and put this SQL into the editor.
    InsertHistory(String),
    ClearHistory,
}

/// The entry selected when a history is set: the first one, if any.
pub open spec fn default_selection(history: Seq<QueryHistoryEntry>) -> Option<usize> {
    if history.len() > 0 {
        Some(0)
    } else {
        None
    }
}

impl SqlEditor {
    /// An idle editor without history.
    pub fn new() -> (r: SqlEditor)
        ensures
            !r.is_running,
            r.history@.len() == 0,
            r.selected_history_index is None,
    {
        SqlEditor { is_running: false, history: Vec::new(), selected_history_index: None }
    }

    /// The entry selected when a history is set.
    pub fn default_history_selection(&self) -> (r: Option<usize>)
        ensures
            r == default_selection(self.history@),
    {
        if self.history.len() > 0 {
            Some(0)
        } else {
            None
        }
    }

    /// The selected history entry.
    pub fn selected_history_entry(&self) -> (r: Option<&QueryHistoryEntry>)
        ensures
            r == (match self.selected_history_index {
                Some(i) => if i < self.history@.len() {
                    Some(&self.history@[i as int])
                } else {
                    None
                },
                None => None,
            }),
    {
        match self.selected_history_index {
            Some(i) => if i < self.history.len() {
                Some(&self.history[i])
            } else {
                None
            },
            None => None,
        }
    }

    /// The text of the history preview: the selected entry's SQL, or
    /// nothing.
    pub fn history_preview(&self) -> (r: String)
        ensures
            r@ == (match self.selected_history_entry_spec() {
                Some(e) => e.sql@,
                None => Seq::<char>::empty(),
            }),
    {
        match self.selected_history_entry() {
            Some(e) => e.sql.clone(),
            None => String::new(),
        }
    }

    pub open spec fn selected_history_entry_spec(self) -> Option<QueryHistoryEntry> {
        match self.selected_history_index {
            Some(i) => if i < self.history@.len() {
                Some(self.history@[i as int])
            } else {
                None
            },
            None => None,
        }
    }

    /// Takes a message and says what the application must do. A run is only
    /// asked for while no query runs.
    pub fn update(&mut self, msg: SqlEditorMsg) -> (a: SqlEditorAction)
        ensures
            match msg {
                SqlEditorMsg::SetRunning(running) => {
                    &&& a is Nothing
                    &&& final(self).is_running == running
                    &&& final(self).history == old(self).history
                    &&& final(self).selected_history_index == old(self).selected_history_index
                },
                SqlEditorMsg::SetHistory(history) => {
                    &&& a is RenderHistory
                    &&& final(self).history == history
                    &&& final(self).selected_history_index == default_selection(history@)
                    &&& final(self).is_running == old(self).is_running
                },
                SqlEditorMsg::Focus => a is Focus && *final(self) == *old(self),
                SqlEditorMsg::RunRequested => *final(self) == *old(self) && (if old(self).is_running {
                    a is Nothing
                } else {
                    a is Run
                }),
                SqlEditorMsg::CancelRequested => a is Cancel && *final(self) == *old(self),
                SqlEditorMsg::HistoryRowSelected(index) => {
                    &&& a is ShowPreview
                    &&& final(self).selected_history_index == (if index < old(self).history@.len() {
                        Some(index)
                    } else {
                        None
                    })
                    &&& final(self).history == old(self).history
                    &&& final(self).is_running == old(self).is_running
                },
                SqlEditorMsg::InsertSelectedHistoryRequested => {
                    &&& *final(self) == *old(self)
                    &&& match old(self).selected_history_entry_spec() {
                        Some(e) => a matches SqlEditorAction::InsertHistory(sql) && sql@ == e.sql@,
                        None => a is Nothing,
                    }
                },
                SqlEditorMsg::ClearHistoryRequested => a is ClearHistory && *final(self) == *old(self),
            },
    {
        match msg {
            SqlEditorMsg::SetRunning(running) => {
                self.is_running = running;
                SqlEditorAction::Nothing
            },
            SqlEditorMsg::SetHistory(history) => {
                self.history = history;
                self.selected_history_index = self.default_history_selection();
                SqlEditorAction::RenderHistory
            },
            SqlEditorMsg::Focus => SqlEditorAction::Focus,
            SqlEditorMsg::RunRequested => if self.is_running {
                SqlEditorAction::Nothing
            } else {
                SqlEditorAction::Run
            },
            SqlEditorMsg::CancelRequested => SqlEditorAction::Cancel,
            SqlEditorMsg::HistoryRowSelected(index) => {
                self.selected_history_index = if index < self.history.len() {
                    Some(index)
                } else {
                    None
                };
                SqlEditorAction::ShowPreview
            },
            SqlEditorMsg::InsertSelectedHistoryRequested => match self.selected_history_entry() {
                Some(e) => SqlEditorAction::InsertHistory(e.sql.clone()),
                None => SqlEditorAction::Nothing,
            },
            SqlEditorMsg::ClearHistoryRequested => SqlEditorAction::ClearHistory,
        }
    }
}

/// The start screen: the saved connections.
#[derive(Debug)]
pub struct StartScreen {
    pub connections: Vec<SavedConnection>,
}

/// What happens on the start screen.
#[derive(Debug)]
pub enum StartScreenMsg {
    SetConnections(Vec<SavedConnection>),
    NewConnection,
    OpenConnection(SavedConnection),
    RequestRename(SavedConnection),
    RequestRemove(SavedConnection),
    RenameConfirmed { id: String, name: String },
    RemoveConfirmed(String),
}

/// What the start screen asks the application to do.
#[derive(Debug)]
pub enum StartScreenAction {
    Nothing,
    /// List the connections again.
    Render,
    NewConnection,
    OpenConnection(SavedConnection),
    /// Ask for a new name of this connection.
    AskRename(SavedConnection),
    /// Ask whether to remove this connection.
    AskRemove(SavedConnection),
    /// Rename the stored connection `id` to `name`.
    Rename { id: String, name: String },
    /// Remove the stored connection `id`.
    Remove { id: String },
}

/// `username@host:port/database`: how a saved connection is described.
pub open spec fn connection_subtitle_spec(c: SavedConnection) -> Seq<char> {
    c.username@ + "@"@ + c.host@ + ":"@ + decimal(c.port as nat) + "/"@ + c.database@
}

impl StartScreen {
    /// A start screen listing `connections`.
    pub fn new(connections: Vec<SavedConnection>) -> (r: StartScreen)
        ensures
            r.connections == connections,
    {
        StartScreen { connections }
    }

    /// Takes a message and says what the application must do. A rename to a
    /// blank name is dropped; other names are trimmed.
    pub fn update(&mut self, msg: StartScreenMsg) -> (a: StartScreenAction)
        ensures
            match msg {
                StartScreenMsg::SetConnections(connections) => a is Render && final(self).connections
                    == connections,
                StartScreenMsg::NewConnection => a is NewConnection && *final(self) == *old(self),
                StartScreenMsg::OpenConnection(c) => a == StartScreenAction::OpenConnection(c)
                    && *final(self) == *old(self),
                StartScreenMsg::RequestRename(c) => a == StartScreenAction::AskRename(c)
                    && *final(self) == *old(self),
                StartScreenMsg::RequestRemove(c) => a == StartScreenAction::AskRemove(c)
                    && *final(self) == *old(self),
                StartScreenMsg::RenameConfirmed { id, name } => *final(self) == *old(self) && match normalized_name_spec(
                    name@,
                ) {
                    Some(n) => a matches StartScreenAction::Rename { id: i, name: m } && i == id
                        && m@ == n,
                    None => a is Nothing,
                },
                StartScreenMsg::RemoveConfirmed(id) => a == StartScreenAction::Remove { id }
                    && *final(self) == *old(self),
            },
    {
        match msg {
            StartScreenMsg::SetConnections(connections) => {
                self.connections = connections;
                StartScreenAction::Render
            },
            StartScreenMsg::NewConnection => StartScreenAction::NewConnection,
            StartScreenMsg::OpenConnection(c) => StartScreenAction::OpenConnection(c),
            StartScreenMsg::RequestRename(c) => StartScreenAction::AskRename(c),
            StartScreenMsg::RequestRemove(c) => StartScreenAction::AskRemove(c),
            StartScreenMsg::RenameConfirmed { id, name } => match normalize_new_object_name(
                name.as_str(),
            ) {
                Some(n) => StartScreenAction::Rename { id, name: n },
                None => StartScreenAction::Nothing,
            },
            StartScreenMsg::RemoveConfirmed(id) => StartScreenAction::Remove { id },
        }
    }

    /// The page shown: the list, or a note when there are no connections.
    pub fn visible_child_name(&self) -> (r: &'static str)
        ensures
            r@ == (if self.connections@.len() == 0 {
                "empty"@
            } else {
                "list"@
            }),
    {
        if self.connections.len() == 0 {
            "empty"
        } else {
            "list"
        }
    }
}

/// How a saved connection is described under its name.
pub fn connection_subtitle(c: &SavedConnection) -> (r: String)
    ensures
        r@ == connection_subtitle_spec(*c),
{
    let mut r = c.username.clone();
    r.append("@");
    r.append(c.host.as_str());
    r.append(":");
    crate::text::push_decimal(&mut r, c.port as u64);
    r.append("/");
    r.append(c.database.as_str());
    r
}

/// The question asked before a saved connection is removed: the translated
/// question and the connection's name in quotes.
pub fn remove_connection_body(name: &str) -> (r: String)
    ensures
        exists|question: Seq<char>|
            #![trigger translated("Remove the saved connection"@, question)]
            translated("Remove the saved connection"@, question) && r@ == question + " “"@ + name@
                + "”?"@,
{
    let mut r = tr("Remove the saved connection");
    let ghost question = r@;
    r.append(" “");
    r.append(name);
    r.append("”?");
    assert(translated("Remove the saved connection"@, question));
    r
}

} // verus!
