//! The connection session of a window: the active database, the schema and
//! database-list loads, switching databases and generating table scripts.
//!
//! Each load is answered asynchronously; only the answer to the latest
//! request of its kind is taken.

use vstd::prelude::*;
use crate::actions::failure_notice;
use crate::i18n::{tr, translated};
use crate::models::{DatabaseObject, SavedConnection};
use crate::queries::QueryRuns;
use crate::text::views;
use crate::workspace::databases_with_active_database;

verus! {

/// The kinds of table scripts that can be generated.
#[derive(Clone, Copy, Debug, PartialEq, Eq, Structural)]
pub enum TableScriptKind {
    Create,
    Select,
    Insert,
    Update,
    Delete,
}

/// The text of the message id of the notice shown after a script was generated.
pub open spec fn table_script_generated_text(kind: TableScriptKind) -> Seq<char> {
    match kind {
        TableScriptKind::Create => "CREATE script generated."@,
        TableScriptKind::Select => "SELECT script generated."@,
        TableScriptKind::Insert => "INSERT script generated."@,
        TableScriptKind::Update => "UPDATE script generated."@,
        TableScriptKind::Delete => "DELETE script generated."@,
    }
}

/// The message id of the notice shown after a script was generated.
pub fn table_script_generated_msgid(kind: TableScriptKind) -> (r: &'static str)
    ensures
        r@ == table_script_generated_text(kind),
{
    match kind {
        TableScriptKind::Create => "CREATE script generated.",
        TableScriptKind::Select => "SELECT script generated.",
        TableScriptKind::Insert => "INSERT script generated.",
        TableScriptKind::Update => "UPDATE script generated.",
        TableScriptKind::Delete => "DELETE script generated.",
    }
}

/// The translated notice shown after a script was generated.
pub fn table_script_generated_message(kind: TableScriptKind) -> (r: String)
    ensures
        translated(table_script_generated_text(kind), r@),
{
    tr(table_script_generated_msgid(kind))
}

/// A notice: the translated heading, and the detail after a colon when there
/// is one.
pub fn notice_text(msgid: &str, detail: Option<&str>) -> (r: String)
    ensures
        detail is None ==> translated(msgid@, r@),
        (detail matches Some(d) ==> exists|heading: Seq<char>|
            #![trigger translated(msgid@, heading)]
            translated(msgid@, heading) && r@ == heading + ": "@ + d@),
{
    let heading = tr(msgid);
    match detail {
        Some(d) => {
            let r = failure_notice(heading.as_str(), d);
            proof {
                assert(translated(msgid@, heading@));
            }
            r
        },
        None => heading,
    }
}

/// What a new list of saved connections, changed in another window, means
/// for this window's connection.
#[derive(Clone, Copy, Debug, PartialEq, Eq, Structural)]
pub enum ConnectionsChange {
    /// The window has no connection.
    NoActiveConnection,
    /// The active connection is in the list at this position: take its name
    /// and password setting.
    ActiveUpdated { index: usize },
    /// The active connection was removed; the window goes back to the start
    /// screen when it shows the workspace.
    ActiveRemoved { leave_workspace: bool },
}

/// The position of the first connection with id `id`.
pub open spec fn connection_position(connections: Seq<SavedConnection>, id: Seq<char>) -> Option<int> {
    if exists|i: int| 0 <= i < connections.len() && connections[i].id@ == id {
        Some(
            choose|i: int|
                0 <= i < connections.len() && connections[i].id@ == id && forall|j: int|
                    0 <= j < i ==> connections[j].id@ != id,
        )
    } else {
        None
    }
}

/// How the window takes a new list of saved connections.
pub fn external_connections_change(
    active_connection_id: Option<&String>,
    connections: &Vec<SavedConnection>,
    shows_workspace: bool,
) -> (r: ConnectionsChange)
    ensures
        match active_connection_id {
            None => r == ConnectionsChange::NoActiveConnection,
            Some(id) => match connection_position(connections@, id@) {
                Some(i) => r == ConnectionsChange::ActiveUpdated { index: i as usize },
                None => r == ConnectionsChange::ActiveRemoved { leave_workspace: shows_workspace },
            },
        },
{
    let id = match active_connection_id {
        Some(id) => id,
        None => {
            return ConnectionsChange::NoActiveConnection;
        },
    };
    let mut i: usize = 0;
    while i < connections.len()
        invariant
            i <= connections@.len(),
            active_connection_id == Some(id),
            forall|j: int| 0 <= j < i ==> connections@[j].id@ != id@,
        decreases connections@.len() - i,
    {
        if connections[i].id == *id {
            proof {
                let cs = connections@;
                let w = choose|k: int|
                    0 <= k < cs.len() && cs[k].id@ == id@ && forall|j: int| 0 <= j < k ==> cs[j].id@ != id@;
                assert(cs[i as int].id@ == id@);
                if w < i {
                    assert(cs[w].id@ != id@);
                } else if w > i {
                    assert(cs[i as int].id@ != id@);
                }
            }
            return ConnectionsChange::ActiveUpdated { index: i };
        }
        i = i + 1;
    }
    ConnectionsChange::ActiveRemoved { leave_workspace: shows_workspace }
}

/// The session of a window.
#[derive(Debug)]
pub struct SessionState {
    /// A connection is open.
    pub connected: bool,
    pub active_database: Option<String>,
    pub available_databases: Vec<String>,
    pub next_schema_request_id: u64,
    pub active_schema_request_id: Option<u64>,
    pub next_database_list_request_id: u64,
    pub active_database_list_request_id: Option<u64>,
    pub next_database_switch_request_id: u64,
    pub active_database_switch_request_id: Option<u64>,
    /// Scripts requested under another generation are dropped.
    pub table_script_generation: u64,
}

/// What happens to the session.
#[derive(Debug)]
pub enum SessionEvent {
    /// The connection dialog connected to this database.
    Connected(String),
    /// The window went back to the start screen.
    Disconnected,
    /// The schema should be loaded again.
    ReloadSchema,
    SchemaLoaded { id: u64, result: Result<Vec<DatabaseObject>, String> },
    DatabasesLoaded { id: u64, result: Result<Vec<String>, String> },
    /// The user picked a database.
    DatabaseSelected(String),
    DatabaseSwitched { id: u64, database: String, result: Result<(), String> },
    TableScriptRequested { object: DatabaseObject, kind: TableScriptKind },
    TableScriptGenerated { generation: u64, kind: TableScriptKind, result: Result<String, String> },
}

/// What the session asks the application to do.
#[derive(Debug)]
pub enum SessionAction {
    Nothing,
    /// Load the database list and the schema of the new connection (running
    /// queries were cancelled by `connect_window`).
    LoadAfterConnect { schema_id: u64, database_list_id: u64 },
    /// Load the schema; the answer comes back with `id`.
    LoadSchema { id: u64 },
    /// Show these objects in the sidebar.
    ShowObjects(Vec<DatabaseObject>),
    /// Show in the sidebar that the schema load failed with this error.
    SchemaFailed(String),
    /// Stop the database list's spinner and offer these databases.
    ShowDatabases(Vec<String>),
    /// Stop the database list's spinner.
    StopDatabaseLoading,
    /// Save the open tabs, start the spinner and connect to `database`; the
    /// answer comes back with `id`.
    SwitchDatabase { id: u64, database: String },
    /// Stop the spinner and tell that the switch failed with this error.
    SwitchFailed(String),
    /// The database changed: cancel running queries, clear the objects, offer
    /// `databases` with `database` active, restore its tabs and history, and
    /// reload the schema.
    DatabaseSwitched { database: String, databases: Vec<String> },
    /// Generate a script; the answer comes back with `generation`.
    GenerateScript { generation: u64, object: DatabaseObject, kind: TableScriptKind },
    /// Open the generated script in a new query tab.
    OpenScript { sql: String, kind: TableScriptKind },
    /// Tell that generating the script failed with this error.
    ScriptFailed(String),
    /// Show this notice (a message id).
    Notice(&'static str),
    /// Forget the connection: clear the workspace and its tabs.
    ClearWorkspace,
}

/// The session without the executable types.
pub struct SessionCore {
    pub connected: bool,
    pub active_database: Option<Seq<char>>,
    pub available_databases: Seq<Seq<char>>,
    pub next_schema_request_id: u64,
    pub active_schema_request_id: Option<u64>,
    pub next_database_list_request_id: u64,
    pub active_database_list_request_id: Option<u64>,
    pub next_database_switch_request_id: u64,
    pub active_database_switch_request_id: Option<u64>,
    pub table_script_generation: u64,
}

/// An action over views.
pub enum SessionEffect {
    Nothing,
    LoadAfterConnect { schema_id: u64, database_list_id: u64 },
    LoadSchema { id: u64 },
    ShowObjects(Seq<DatabaseObject>),
    SchemaFailed(Seq<char>),
    ShowDatabases(Seq<Seq<char>>),
    StopDatabaseLoading,
    SwitchDatabase { id: u64, database: Seq<char> },
    SwitchFailed(Seq<char>),
    DatabaseSwitched { database: Seq<char>, databases: Seq<Seq<char>> },
    GenerateScript { generation: u64, object: DatabaseObject, kind: TableScriptKind },
    OpenScript { sql: Seq<char>, kind: TableScriptKind },
    ScriptFailed(Seq<char>),
    Notice(Seq<char>),
    ClearWorkspace,
}

/// The view of an optional string.
pub open spec fn opt_text(s: Option<String>) -> Option<Seq<char>> {
    match s {
        Some(t) => Some(t@),
        None => None,
    }
}

impl SessionState {
    pub open spec fn state(self) -> SessionCore {
        SessionCore {
            connected: self.connected,
            active_database: opt_text(self.active_database),
            available_databases: views(self.available_databases@),
            next_schema_request_id: self.next_schema_request_id,
            active_schema_request_id: self.active_schema_request_id,
            next_database_list_request_id: self.next_database_list_request_id,
            active_database_list_request_id: self.active_database_list_request_id,
            next_database_switch_request_id: self.next_database_switch_request_id,
            active_database_switch_request_id: self.active_database_switch_request_id,
            table_script_generation: self.table_script_generation,
        }
    }
}

/// The effect of an action.
pub open spec fn effect(a: SessionAction) -> SessionEffect {
    match a {
        SessionAction::Nothing => SessionEffect::Nothing,
        SessionAction::LoadAfterConnect { schema_id, database_list_id } => SessionEffect::LoadAfterConnect {
            schema_id,
            database_list_id,
        },
        SessionAction::LoadSchema { id } => SessionEffect::LoadSchema { id },
        SessionAction::ShowObjects(objects) => SessionEffect::ShowObjects(objects@),
        SessionAction::SchemaFailed(e) => SessionEffect::SchemaFailed(e@),
        SessionAction::ShowDatabases(d) => SessionEffect::ShowDatabases(views(d@)),
        SessionAction::StopDatabaseLoading => SessionEffect::StopDatabaseLoading,
        SessionAction::SwitchDatabase { id, database } => SessionEffect::SwitchDatabase {
            id,
            database: database@,
        },
        SessionAction::SwitchFailed(e) => SessionEffect::SwitchFailed(e@),
        SessionAction::DatabaseSwitched { database, databases } => SessionEffect::DatabaseSwitched {
            database: database@,
            databases: views(databases@),
        },
        SessionAction::GenerateScript { generation, object, kind } => SessionEffect::GenerateScript {
            generation,
            object,
            kind,
        },
        SessionAction::OpenScript { sql, kind } => SessionEffect::OpenScript { sql: sql@, kind },
        SessionAction::ScriptFailed(e) => SessionEffect::ScriptFailed(e@),
        SessionAction::Notice(m) => SessionEffect::Notice(m@),
        SessionAction::ClearWorkspace => SessionEffect::ClearWorkspace,
    }
}

/// The id after `id`, wrapping around.
pub open spec fn id_after(id: u64) -> u64 {
    if id == u64::MAX {
        0
    } else {
        (id + 1) as u64
    }
}

/// The databases offered: the listed ones, with the active one first when
/// the list lacks it.
pub open spec fn with_active_database(active: Option<Seq<char>>, databases: Seq<Seq<char>>) -> Seq<
    Seq<char>,
> {
    match active {
        None => databases,
        Some(a) => if databases.contains(a) {
            databases
        } else {
            seq![a] + databases
        },
    }
}

/// One step of the session.
pub open spec fn session_step(s: SessionCore, e: SessionEvent) -> (SessionCore, SessionEffect) {
    match e {
        SessionEvent::Connected(database) => (
            SessionCore {
                connected: true,
                active_database: Some(database@),
                available_databases: Seq::empty(),
                next_schema_request_id: id_after(s.next_schema_request_id),
                active_schema_request_id: Some(s.next_schema_request_id),
                next_database_list_request_id: id_after(s.next_database_list_request_id),
                active_database_list_request_id: Some(s.next_database_list_request_id),
                table_script_generation: id_after(s.table_script_generation),
                ..s
            },
            SessionEffect::LoadAfterConnect {
                schema_id: s.next_schema_request_id,
                database_list_id: s.next_database_list_request_id,
            },
        ),
        SessionEvent::Disconnected => (
            SessionCore {
                connected: false,
                active_database: None,
                available_databases: Seq::empty(),
                active_schema_request_id: None,
                active_database_list_request_id: None,
                active_database_switch_request_id: None,
                table_script_generation: id_after(s.table_script_generation),
                ..s
            },
            SessionEffect::ClearWorkspace,
        ),
        SessionEvent::ReloadSchema => if !s.connected {
            (s, SessionEffect::Nothing)
        } else {
            (
                SessionCore {
                    next_schema_request_id: id_after(s.next_schema_request_id),
                    active_schema_request_id: Some(s.next_schema_request_id),
                    ..s
                },
                SessionEffect::LoadSchema { id: s.next_schema_request_id },
            )
        },
        SessionEvent::SchemaLoaded { id, result } => if s.active_schema_request_id != Some(id) {
            (s, SessionEffect::Nothing)
        } else {
            (
                SessionCore { active_schema_request_id: None, ..s },
                match result {
                    Ok(objects) => SessionEffect::ShowObjects(objects@),
                    Err(error) => SessionEffect::SchemaFailed(error@),
                },
            )
        },
        SessionEvent::DatabasesLoaded { id, result } => if s.active_database_list_request_id != Some(
            id,
        ) {
            (s, SessionEffect::Nothing)
        } else {
            let t = SessionCore { active_database_list_request_id: None, ..s };
            match result {
                Ok(databases) => {
                    let offered = with_active_database(s.active_database, views(databases@));
                    (
                        SessionCore { available_databases: offered, ..t },
                        SessionEffect::ShowDatabases(offered),
                    )
                },
                Err(_) => match s.active_database {
                    Some(active) => (
                        SessionCore { available_databases: seq![active], ..t },
                        SessionEffect::ShowDatabases(seq![active]),
                    ),
                    None => (t, SessionEffect::StopDatabaseLoading),
                },
            }
        },
        SessionEvent::DatabaseSelected(database) => if s.active_database == Some(database@) {
            (s, SessionEffect::Nothing)
        } else if !s.connected {
            (s, SessionEffect::Notice("Connect to PostgreSQL before switching databases."@))
        } else {
            (
                SessionCore {
                    next_database_switch_request_id: id_after(s.next_database_switch_request_id),
                    active_database_switch_request_id: Some(s.next_database_switch_request_id),
                    ..s
                },
                SessionEffect::SwitchDatabase {
                    id: s.next_database_switch_request_id,
                    database: database@,
                },
            )
        },
        SessionEvent::DatabaseSwitched { id, database, result } => if s.active_database_switch_request_id
            != Some(id) {
            (s, SessionEffect::Nothing)
        } else {
            match result {
                Err(error) => (
                    SessionCore { active_database_switch_request_id: None, ..s },
                    SessionEffect::SwitchFailed(error@),
                ),
                Ok(_) => {
                    let t = SessionCore {
                        active_database_switch_request_id: None,
                        active_schema_request_id: None,
                        active_database: Some(database@),
                        ..s
                    };
                    if !s.connected {
                        (t, SessionEffect::Nothing)
                    } else {
                        (
                            t,
                            SessionEffect::DatabaseSwitched {
                                database: database@,
                                databases: with_active_database(
                                    Some(database@),
                                    s.available_databases,
                                ),
                            },
                        )
                    }
                },
            }
        },
        SessionEvent::TableScriptRequested { object, kind } => if !s.connected {
            (s, SessionEffect::Notice("Connect to PostgreSQL before generating a script."@))
        } else {
            (
                s,
                SessionEffect::GenerateScript {
                    generation: s.table_script_generation,
                    object,
                    kind,
                },
            )
        },
        SessionEvent::TableScriptGenerated { generation, kind, result } => if generation
            != s.table_script_generation {
            (s, SessionEffect::Nothing)
        } else {
            (
                s,
                match result {
                    Ok(sql) => SessionEffect::OpenScript { sql: sql@, kind },
                    Err(error) => SessionEffect::ScriptFailed(error@),
                },
            )
        },
    }
}

/// A database switch is only outstanding while connected.
pub open spec fn session_wf(s: SessionCore) -> bool {
    s.active_database_switch_request_id is Some ==> s.connected
}

/// The databases offered, computed on the executable list.
fn offered_databases(active: Option<&String>, databases: Vec<String>) -> (r: Vec<String>)
    ensures
        views(r@) == with_active_database(
            match active {
                Some(a) => Some(a@),
                None => None,
            },
            views(databases@),
        ),
{
    proof {
        match active {
            Some(a) => {
                if views(databases@).contains(a@) {
                    let i = choose|i: int| 0 <= i < views(databases@).len() && views(databases@)[i] == a@;
                    assert(databases@[i]@ == a@);
                } else {
                    assert forall|i: int| 0 <= i < databases@.len() implies #[trigger] databases@[i]@ != a@ by {
                        assert(views(databases@)[i] == databases@[i]@);
                    }
                }
            },
            None => {},
        }
    }
    let r = databases_with_active_database(active, databases);
    proof {
        match active {
            Some(a) => {
                if !views(databases@).contains(a@) {
                    assert(views(r@) =~= seq![a@] + views(databases@)) by {
                        assert(r@ =~= seq![r@[0]] + r@.skip(1));
                    }
                }
            },
            None => {},
        }
    }
    r
}

fn next_id(id: u64) -> (r: u64)
    ensures
        r == id_after(id),
{
    if id == u64::MAX {
        0
    } else {
        id + 1
    }
}

impl SessionState {
    /// A window without a connection.
    pub fn new() -> (r: SessionState)
        ensures
            !r.connected,
            r.active_database is None,
            r.available_databases@.len() == 0,
            r.active_schema_request_id is None,
            r.active_database_list_request_id is None,
            r.active_database_switch_request_id is None,
            r.next_schema_request_id == 0,
            r.next_database_list_request_id == 0,
            r.next_database_switch_request_id == 0,
            r.table_script_generation == 0,
            session_wf(r.state()),
    {
        SessionState {
            connected: false,
            active_database: None,
            available_databases: Vec::new(),
            next_schema_request_id: 0,
            active_schema_request_id: None,
            next_database_list_request_id: 0,
            active_database_list_request_id: None,
            next_database_switch_request_id: 0,
            active_database_switch_request_id: None,
            table_script_generation: 0,
        }
    }

    /// Takes an event and says what the application must do.
    #[verifier::rlimit(30)]
    pub fn update(&mut self, event: SessionEvent) -> (a: SessionAction)
        ensures
            (final(self).state(), effect(a)) == session_step(old(self).state(), event),
    {
        match event {
            SessionEvent::Connected(database) => {
                self.connected = true;
                self.active_database = Some(database);
                self.available_databases = Vec::new();
                self.table_script_generation = next_id(self.table_script_generation);
                let schema_id = self.next_schema_request_id;
                self.next_schema_request_id = next_id(schema_id);
                self.active_schema_request_id = Some(schema_id);
                let database_list_id = self.next_database_list_request_id;
                self.next_database_list_request_id = next_id(database_list_id);
                self.active_database_list_request_id = Some(database_list_id);
                proof {
                    assert(views(self.available_databases@) =~= Seq::<Seq<char>>::empty());
                }
                SessionAction::LoadAfterConnect { schema_id, database_list_id }
            },
            SessionEvent::Disconnected => {
                self.connected = false;
                self.active_database = None;
                self.available_databases = Vec::new();
                self.active_schema_request_id = None;
                self.active_database_list_request_id = None;
                self.active_database_switch_request_id = None;
                self.table_script_generation = next_id(self.table_script_generation);
                proof {
                    assert(views(self.available_databases@) =~= Seq::<Seq<char>>::empty());
                }
                SessionAction::ClearWorkspace
            },
            SessionEvent::ReloadSchema => {
                if !self.connected {
                    return SessionAction::Nothing;
                }
                let id = self.next_schema_request_id;
                self.next_schema_request_id = next_id(id);
                self.active_schema_request_id = Some(id);
                SessionAction::LoadSchema { id }
            },
            SessionEvent::SchemaLoaded { id, result } => {
                if self.active_schema_request_id != Some(id) {
                    return SessionAction::Nothing;
                }
                self.active_schema_request_id = None;
                match result {
                    Ok(objects) => SessionAction::ShowObjects(objects),
                    Err(error) => SessionAction::SchemaFailed(error),
                }
            },
            SessionEvent::DatabasesLoaded { id, result } => self.take_database_list(id, result),
            SessionEvent::DatabaseSelected(database) => {
                let same = match &self.active_database {
                    Some(active) => *active == database,
                    None => false,
                };
                if same {
                    return SessionAction::Nothing;
                }
                if !self.connected {
                    return SessionAction::Notice("Connect to PostgreSQL before switching databases.");
                }
                let id = self.next_database_switch_request_id;
                self.next_database_switch_request_id = next_id(id);
                self.active_database_switch_request_id = Some(id);
                SessionAction::SwitchDatabase { id, database }
            },
            SessionEvent::DatabaseSwitched { id, database, result } => self.take_switch(
                id,
                database,
                result,
            ),
            SessionEvent::TableScriptRequested { object, kind } => {
                if !self.connected {
                    return SessionAction::Notice(
                        "Connect to PostgreSQL before generating a script.",
                    );
                }
                SessionAction::GenerateScript {
                    generation: self.table_script_generation,
                    object,
                    kind,
                }
            },
            SessionEvent::TableScriptGenerated { generation, kind, result } => {
                if generation != self.table_script_generation {
                    return SessionAction::Nothing;
                }
                match result {
                    Ok(sql) => SessionAction::OpenScript { sql, kind },
                    Err(error) => SessionAction::ScriptFailed(error),
                }
            },
        }
    }

    fn take_database_list(&mut self, id: u64, result: Result<Vec<String>, String>) -> (a:
        SessionAction)
        ensures
            (final(self).state(), effect(a)) == session_step(
                old(self).state(),
                SessionEvent::DatabasesLoaded { id, result },
            ),
    {
        if self.active_database_list_request_id != Some(id) {
            return SessionAction::Nothing;
        }
        self.active_database_list_request_id = None;
        match result {
            Ok(databases) => {
                let offered = offered_databases(self.active_database.as_ref(), databases);
                self.available_databases = clone_names(&offered);
                SessionAction::ShowDatabases(offered)
            },
            Err(_) => match &self.active_database {
                Some(active) => {
                    let mut only: Vec<String> = Vec::new();
                    only.push(active.clone());
                    self.available_databases = clone_names(&only);
                    proof {
                        assert(views(only@) =~= seq![active@]);
                    }
                    SessionAction::ShowDatabases(only)
                },
                None => SessionAction::StopDatabaseLoading,
            },
        }
    }

    fn take_switch(&mut self, id: u64, database: String, result: Result<(), String>) -> (a:
        SessionAction)
        ensures
            (final(self).state(), effect(a)) == session_step(
                old(self).state(),
                SessionEvent::DatabaseSwitched { id, database, result },
            ),
    {
        if self.active_database_switch_request_id != Some(id) {
            return SessionAction::Nothing;
        }
        self.active_database_switch_request_id = None;
        match result {
            Err(error) => SessionAction::SwitchFailed(error),
            Ok(_) => {
                self.active_schema_request_id = None;
                self.active_database = Some(clone_name(&database));
                if !self.connected {
                    return SessionAction::Nothing;
                }
                let offered = offered_databases(
                    Some(&database),
                    clone_names(&self.available_databases),
                );
                SessionAction::DatabaseSwitched { database, databases: offered }
            },
        }
    }
}

fn clone_name(s: &String) -> (r: String)
    ensures
        r@ == s@,
{
    s.clone()
}

fn clone_names(names: &Vec<String>) -> (r: Vec<String>)
    ensures
        views(r@) == views(names@),
{
    let mut r: Vec<String> = Vec::new();
    let mut i: usize = 0;
    while i < names.len()
        invariant
            i <= names.len(),
            r@.len() == i,
            forall|j: int| 0 <= j < i ==> #[trigger] r@[j]@ == names@[j]@,
        decreases names.len() - i,
    {
        r.push(clone_name(&names[i]));
        i = i + 1;
    }
    proof {
        assert(views(r@) =~= views(names@));
    }
    r
}

/// The window connected to `database`: every running query is cancelled
/// first, then the session takes the connection. Returns what the session
/// asks for and the ids of the tabs whose query was cancelled.
pub fn connect_window(session: &mut SessionState, runs: &mut QueryRuns, database: String) -> (r: (
    SessionAction,
    Vec<u64>,
))
    ensures
        (final(session).state(), effect(r.0)) == session_step(
            old(session).state(),
            SessionEvent::Connected(database),
        ),
        final(runs).next_query_id == old(runs).next_query_id,
        final(runs).tabs@.len() == old(runs).tabs@.len(),
        forall|i: int|
            0 <= i < final(runs).tabs@.len() ==> (#[trigger] final(runs).tabs@[i]).active_query is None
                && final(runs).tabs@[i].tab_id == old(runs).tabs@[i].tab_id && (old(
                runs,
            ).tabs@[i].active_query is None ==> final(runs).tabs@[i] == old(runs).tabs@[i]),
{
    let cancelled = runs.cancel_all();
    let action = session.update(SessionEvent::Connected(database));
    (action, cancelled)
}

/// Answers that do not carry the current request id, or scripts of an
/// earlier generation, change nothing.
pub proof fn stale_session_answers_are_ignored(s: SessionCore, e: SessionEvent)
    requires
        match e {
            SessionEvent::SchemaLoaded { id, .. } => s.active_schema_request_id != Some(id),
            SessionEvent::DatabasesLoaded { id, .. } => s.active_database_list_request_id != Some(id),
            SessionEvent::DatabaseSwitched { id, .. } => s.active_database_switch_request_id != Some(id),
            SessionEvent::TableScriptGenerated { generation, .. } => generation != s.table_script_generation,
            _ => false,
        },
    ensures
        session_step(s, e) == (s, SessionEffect::Nothing),
{
}

/// Leaving the connection makes every outstanding answer stale: whatever
/// load, switch or script was under way is dropped when it comes back.
pub proof fn disconnect_drops_outstanding_answers(s: SessionCore, e: SessionEvent)
    requires
        match e {
            SessionEvent::SchemaLoaded { .. } => true,
            SessionEvent::DatabasesLoaded { .. } => true,
            SessionEvent::DatabaseSwitched { .. } => true,
            SessionEvent::TableScriptGenerated { generation, .. } => generation
                == s.table_script_generation,
            _ => false,
        },
    ensures
        ({
            let (t, _) = session_step(s, SessionEvent::Disconnected);
            session_step(t, e) == (t, SessionEffect::Nothing)
        }),
{
}

/// Picking the database that is already active does nothing.
pub proof fn selecting_the_active_database_does_nothing(s: SessionCore, database: String)
    requires
        s.active_database == Some(database@),
    ensures
        session_step(s, SessionEvent::DatabaseSelected(database)) == (s, SessionEffect::Nothing),
{
}

/// After a successful switch the chosen database is active and is among the
/// databases offered.
pub proof fn switched_database_is_active_and_offered(
    s: SessionCore,
    id: u64,
    database: String,
)
    requires
        s.active_database_switch_request_id == Some(id),
        s.connected,
    ensures
        ({
            let (t, a) = session_step(s, SessionEvent::DatabaseSwitched { id, database, result: Ok(()) });
            &&& t.active_database == Some(database@)
            &&& a matches SessionEffect::DatabaseSwitched { database: d, databases } && d
                == database@ && databases.contains(database@)
        }),
{
    let (t, a) = session_step(s, SessionEvent::DatabaseSwitched { id, database, result: Ok(()) });
    if !s.available_databases.contains(database@) {
        assert((seq![database@] + s.available_databases)[0] == database@);
    }
}

/// The offered list always holds the active database once a list was
/// loaded.
pub proof fn loaded_list_offers_the_active_database(
    s: SessionCore,
    id: u64,
    result: Result<Vec<String>, String>,
)
    requires
        s.active_database_list_request_id == Some(id),
        s.active_database is Some,
    ensures
        session_step(s, SessionEvent::DatabasesLoaded { id, result }).0.available_databases.contains(
            s.active_database->0,
        ),
{
    let a = s.active_database->0;
    match result {
        Ok(databases) => {
            if !views(databases@).contains(a) {
                assert((seq![a] + views(databases@))[0] == a);
            }
        },
        Err(_) => {
            assert(seq![a][0] == a);
        },
    }
}

/// Every step keeps a switch outstanding only while connected.
pub proof fn session_step_keeps_invariant(s: SessionCore, e: SessionEvent)
    requires
        session_wf(s),
    ensures
        session_wf(session_step(s, e).0),
{
}

} // verus!
