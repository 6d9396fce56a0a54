//! The object sidebar and the database selector: searching by name, keys of
//! the rows, and the texts of their menus.

use vstd::prelude::*;
use crate::i18n::{tr, translated};
use crate::models::{DatabaseObject, DatabaseObjectKind};
use crate::text::{contains_spec, contains_text, lowercase, to_lowercase, trim, trim_spec};

verus! {

/// The search text as it is matched: trimmed, in lower case.
pub open spec fn search_key(search: Seq<char>) -> Seq<char> {
    lowercase(trim_spec(search))
}

/// A name matches a search: the search is blank, or its lower-case form
/// occurs in the lower-case name.
pub open spec fn name_matches(name: Seq<char>, search: Seq<char>) -> bool {
    trim_spec(search).len() == 0 || contains_spec(lowercase(name), search_key(search))
}

/// Whether a search is typed.
pub fn has_active_search(search_text: &str) -> (r: bool)
    ensures
        r == (trim_spec(search_text@).len() > 0),
{
    let t = trim(search_text);
    crate::text::chars_of(t.as_str()).len() > 0
}

/// Whether `name` matches the search.
pub fn name_matches_search(name: &str, search_text: &str) -> (r: bool)
    ensures
        r == name_matches(name@, search_text@),
{
    if !has_active_search(search_text) {
        return true;
    }
    let key = to_lowercase(trim(search_text).as_str());
    let lowered = to_lowercase(name);
    contains_text(lowered.as_str(), key.as_str())
}

/// The objects whose names match the search, in their order.
pub fn filtered_objects<'a>(objects: &'a Vec<DatabaseObject>, search_text: &str) -> (r: Vec<
    &'a DatabaseObject,
>)
    ensures
        r@.len() <= objects@.len(),
        forall|i: int| 0 <= i < r@.len() ==> name_matches((#[trigger] r@[i]).name@, search_text@),
        r@ == objects@.filter(|o: DatabaseObject| name_matches(o.name@, search_text@)).map_values(
            |o: DatabaseObject| &o,
        ),
{
    let mut r: Vec<&'a DatabaseObject> = Vec::new();
    let mut i: usize = 0;
    while i < objects.len()
        invariant
            i <= objects.len(),
            r@ == objects@.take(i as int).filter(
                |o: DatabaseObject| name_matches(o.name@, search_text@),
            ).map_values(|o: DatabaseObject| &o),
        decreases objects.len() - i,
    {
        reveal_with_fuel(Seq::<_>::filter, 1);
        assert(objects@.take(i + 1).drop_last() =~= objects@.take(i as int));
        if name_matches_search(objects[i].name.as_str(), search_text) {
            r.push(&objects[i]);
        }
        i = i + 1;
    }
    assert(objects@.take(objects.len() as int) =~= objects@);
    proof {
        let p = |o: DatabaseObject| name_matches(o.name@, search_text@);
        objects@.lemma_filter_len(p);
        assert forall|i: int| 0 <= i < r@.len() implies name_matches((#[trigger] r@[i]).name@, search_text@) by {
            objects@.lemma_filter_pred(p, i);
        }
    }
    r
}

/// Whether any object matches the search.
pub fn has_search_results(objects: &Vec<DatabaseObject>, search_text: &str) -> (r: bool)
    ensures
        r == (exists|i: int|
            0 <= i < objects@.len() && name_matches((#[trigger] objects@[i]).name@, search_text@)),
{
    let mut i: usize = 0;
    while i < objects.len()
        invariant
            i <= objects.len(),
            forall|j: int| 0 <= j < i ==> !name_matches((#[trigger] objects@[j]).name@, search_text@),
        decreases objects.len() - i,
    {
        if name_matches_search(objects[i].name.as_str(), search_text) {
            return true;
        }
        i = i + 1;
    }
    false
}

/// The databases whose names match the search, in their order.
pub fn filtered_databases<'a>(databases: &'a Vec<String>, search_text: &str) -> (r: Vec<&'a str>)
    ensures
        r@.map_values(|d: &str| d@) == databases@.map_values(|d: String| d@).filter(
            |d: Seq<char>| name_matches(d, search_text@),
        ),
{
    let ghost names = databases@.map_values(|d: String| d@);
    let mut r: Vec<&'a str> = Vec::new();
    let mut i: usize = 0;
    while i < databases.len()
        invariant
            i <= databases.len(),
            names == databases@.map_values(|d: String| d@),
            r@.map_values(|d: &str| d@) == names.take(i as int).filter(
                |d: Seq<char>| name_matches(d, search_text@),
            ),
        decreases databases.len() - i,
    {
        reveal_with_fuel(Seq::<_>::filter, 1);
        assert(names.take(i + 1).drop_last() =~= names.take(i as int));
        assert(names.take(i + 1).last() == databases@[i as int]@);
        let ghost before = r@;
        if name_matches_search(databases[i].as_str(), search_text) {
            r.push(databases[i].as_str());
            assert(r@.map_values(|d: &str| d@) =~= before.map_values(|d: &str| d@).push(
                databases@[i as int]@,
            ));
        }
        i = i + 1;
    }
    assert(names.take(databases.len() as int) =~= names);
    r
}

/// The order of kinds in a schema: tables before views.
pub fn object_kind_order(kind: DatabaseObjectKind) -> (r: u8)
    ensures
        r == (if kind == DatabaseObjectKind::Table {
            0u8
        } else {
            1u8
        }),
{
    match kind {
        DatabaseObjectKind::Table => 0,
        DatabaseObjectKind::View => 1,
    }
}

/// The key that identifies an object's row: its kind's icon name, schema
/// and name, separated by the unit separator.
pub open spec fn object_key_spec(object: DatabaseObject) -> Seq<char> {
    (if object.kind == DatabaseObjectKind::Table {
        "table-symbolic"@
    } else {
        "view"@
    }) + seq!['\u{1f}'] + object.schema@ + seq!['\u{1f}'] + object.name@
}

/// The key of an object's row.
pub fn object_key(object: &DatabaseObject) -> (r: String)
    ensures
        r@ == object_key_spec(*object),
{
    let mut r = match object.kind {
        DatabaseObjectKind::Table => "table-symbolic".to_string(),
        DatabaseObjectKind::View => "view".to_string(),
    };
    crate::text::push_char(&mut r, '\u{1f}');
    r.append(object.schema.as_str());
    crate::text::push_char(&mut r, '\u{1f}');
    r.append(object.name.as_str());
    r
}

/// Whether one of the objects is the selected one.
pub fn schema_has_selected_object(objects: &Vec<&DatabaseObject>, selected_key: Option<&str>) -> (r:
    bool)
    ensures
        r == (selected_key is Some && exists|i: int|
            0 <= i < objects@.len() && object_key_spec(*(#[trigger] objects@[i])) == selected_key->0@),
{
    let key = match selected_key {
        Some(k) => k,
        None => return false,
    };
    let mut i: usize = 0;
    while i < objects.len()
        invariant
            i <= objects.len(),
            selected_key == Some(key),
            forall|j: int| 0 <= j < i ==> object_key_spec(*(#[trigger] objects@[j])) != key@,
        decreases objects.len() - i,
    {
        if crate::text::same_text(object_key(objects[i]).as_str(), key) {
            return true;
        }
        i = i + 1;
    }
    false
}

/// A schema group is expanded while searching, for `public`, and when it
/// holds the selected object.
pub fn schema_row_expanded(schema: &str, has_selected_object: bool, has_active_search: bool) -> (r:
    bool)
    ensures
        r == (has_active_search || schema@ == "public"@ || has_selected_object),
{
    has_active_search || crate::text::same_text(schema, "public") || has_selected_object
}

/// The message id of the menu entry that copies an object's name.
pub fn object_copy_label_msgid(kind: DatabaseObjectKind, qualified: bool) -> (r: &'static str)
    ensures
        r == (match (kind, qualified) {
            (DatabaseObjectKind::Table, false) => "Copy Table Name",
            (DatabaseObjectKind::Table, true) => "Copy Qualified Table Name",
            (DatabaseObjectKind::View, false) => "Copy View Name",
            (DatabaseObjectKind::View, true) => "Copy Qualified View Name",
        }),
{
    match (kind, qualified) {
        (DatabaseObjectKind::Table, false) => "Copy Table Name",
        (DatabaseObjectKind::Table, true) => "Copy Qualified Table Name",
        (DatabaseObjectKind::View, false) => "Copy View Name",
        (DatabaseObjectKind::View, true) => "Copy Qualified View Name",
    }
}

/// The message id of the notice after an object's name was copied.
pub fn object_copy_message_msgid(kind: DatabaseObjectKind, qualified: bool) -> (r: &'static str)
    ensures
        r == (match (kind, qualified) {
            (DatabaseObjectKind::Table, false) => "Table name copied.",
            (DatabaseObjectKind::Table, true) => "Qualified table name copied.",
            (DatabaseObjectKind::View, false) => "View name copied.",
            (DatabaseObjectKind::View, true) => "Qualified view name copied.",
        }),
{
    match (kind, qualified) {
        (DatabaseObjectKind::Table, false) => "Table name copied.",
        (DatabaseObjectKind::Table, true) => "Qualified table name copied.",
        (DatabaseObjectKind::View, false) => "View name copied.",
        (DatabaseObjectKind::View, true) => "Qualified view name copied.",
    }
}

/// The text of the message id of the menu entry that copies an object's
/// name.
pub open spec fn object_copy_label_text(kind: DatabaseObjectKind, qualified: bool) -> Seq<char> {
    match (kind, qualified) {
        (DatabaseObjectKind::Table, false) => "Copy Table Name"@,
        (DatabaseObjectKind::Table, true) => "Copy Qualified Table Name"@,
        (DatabaseObjectKind::View, false) => "Copy View Name"@,
        (DatabaseObjectKind::View, true) => "Copy Qualified View Name"@,
    }
}

/// The text of the message id of the notice after an object's name was
/// copied.
pub open spec fn object_copy_message_text(kind: DatabaseObjectKind, qualified: bool) -> Seq<char> {
    match (kind, qualified) {
        (DatabaseObjectKind::Table, false) => "Table name copied."@,
        (DatabaseObjectKind::Table, true) => "Qualified table name copied."@,
        (DatabaseObjectKind::View, false) => "View name copied."@,
        (DatabaseObjectKind::View, true) => "Qualified view name copied."@,
    }
}

/// The menu entry that copies an object's name, translated.
pub fn object_copy_label(kind: DatabaseObjectKind, qualified: bool) -> (r: String)
    ensures
        translated(object_copy_label_text(kind, qualified), r@),
{
    tr(object_copy_label_msgid(kind, qualified))
}

/// The notice after an object's name was copied, translated.
pub fn object_copy_message(kind: DatabaseObjectKind, qualified: bool) -> (r: String)
    ensures
        translated(object_copy_message_text(kind, qualified), r@),
{
    tr(object_copy_message_msgid(kind, qualified))
}

/// The sidebar shows its status page while loading or when there is
/// nothing to list.
pub fn sidebar_visible_child_name(is_loading: bool, has_objects: bool) -> (r: &'static str)
    ensures
        r == (if is_loading || !has_objects {
            "status"
        } else {
            "list"
        }),
{
    if is_loading || !has_objects {
        "status"
    } else {
        "list"
    }
}

/// The label of the database selector: the active database, or a loading
/// note.
pub fn active_database_label(is_loading: bool, active_database: &String) -> (r: String)
    ensures
        !is_loading ==> r@ == active_database@,
        is_loading ==> translated("Loading..."@, r@),
{
    if is_loading {
        tr("Loading...")
    } else {
        active_database.clone()
    }
}

/// The state of the object sidebar.
#[derive(Debug)]
pub struct ObjectSidebar {
    pub objects: Vec<DatabaseObject>,
    pub search_text: String,
    pub is_loading: bool,
    /// The text of the status page: empty, a translated note or an error.
    pub status_text: String,
    /// The key of the selected object's row.
    pub selected_object: Option<String>,
}

/// What happens to the sidebar.
#[derive(Debug)]
pub enum ObjectSidebarMsg {
    Loading,
    SetObjects(Vec<DatabaseObject>),
    SetError(String),
    SetSelectedObject(Option<DatabaseObject>),
    SearchChanged(String),
    FocusSearch,
    ObjectSelected(DatabaseObject),
}

/// What the sidebar asks the application to do.
#[derive(Debug)]
pub enum SidebarAction {
    /// Drop the rows and clear the search entry.
    ClearRows,
    /// Build the rows again from the objects that match the search.
    Render,
    /// Mark the selected row.
    SyncSelection,
    /// Focus the search entry and select its text.
    FocusSearch,
    /// Mark the selected row and open the object.
    Open(DatabaseObject),
}

/// The key of an optional object.
pub open spec fn selected_key_of(object: Option<DatabaseObject>) -> Option<Seq<char>> {
    match object {
        Some(o) => Some(object_key_spec(o)),
        None => None,
    }
}

/// The view of an optional string.
pub open spec fn opt_seq(s: Option<String>) -> Option<Seq<char>> {
    match s {
        Some(t) => Some(t@),
        None => None,
    }
}

impl ObjectSidebar {
    /// A sidebar without a connection.
    pub fn new() -> (r: ObjectSidebar)
        ensures
            r.objects@.len() == 0,
            r.search_text@.len() == 0,
            !r.is_loading,
            r.selected_object is None,
            translated("No connection"@, r.status_text@),
    {
        ObjectSidebar {
            objects: Vec::new(),
            search_text: String::new(),
            is_loading: false,
            status_text: tr("No connection"),
            selected_object: None,
        }
    }

    /// Takes a message and says what the application must do.
    pub fn update(&mut self, msg: ObjectSidebarMsg) -> (a: SidebarAction)
        ensures
            match msg {
                ObjectSidebarMsg::Loading => {
                    &&& a is ClearRows
                    &&& final(self).is_loading
                    &&& final(self).objects@.len() == 0
                    &&& final(self).search_text@.len() == 0
                    &&& final(self).selected_object is None
                    &&& translated("Loading schema..."@, final(self).status_text@)
                },
                ObjectSidebarMsg::SetObjects(objects) => {
                    &&& a is Render
                    &&& !final(self).is_loading
                    &&& final(self).objects@ == objects@
                    &&& objects@.len() > 0 ==> final(self).status_text@.len() == 0
                    &&& objects@.len() == 0 ==> translated(
                        "No tables or views found"@,
                        final(self).status_text@,
                    )
                    &&& final(self).search_text == old(self).search_text
                    &&& final(self).selected_object == old(self).selected_object
                },
                ObjectSidebarMsg::SetError(error) => {
                    &&& a is ClearRows
                    &&& !final(self).is_loading
                    &&& final(self).objects@.len() == 0
                    &&& final(self).status_text@ == error@
                    &&& final(self).search_text@.len() == 0
                    &&& final(self).selected_object is None
                },
                ObjectSidebarMsg::SetSelectedObject(object) => {
                    &&& a is SyncSelection
                    &&& opt_seq(final(self).selected_object) == selected_key_of(object)
                    &&& final(self).objects == old(self).objects
                    &&& final(self).is_loading == old(self).is_loading
                    &&& final(self).search_text == old(self).search_text
                    &&& final(self).status_text == old(self).status_text
                },
                ObjectSidebarMsg::SearchChanged(text) => {
                    &&& a is Render
                    &&& final(self).search_text@ == text@
                    &&& final(self).objects == old(self).objects
                    &&& final(self).is_loading == old(self).is_loading
                    &&& final(self).selected_object == old(self).selected_object
                    &&& final(self).status_text == old(self).status_text
                },
                ObjectSidebarMsg::FocusSearch => {
                    &&& a is FocusSearch
                    &&& *final(self) == *old(self)
                },
                ObjectSidebarMsg::ObjectSelected(object) => {
                    &&& a == SidebarAction::Open(object)
                    &&& opt_seq(final(self).selected_object) == Some(object_key_spec(object))
                    &&& final(self).objects == old(self).objects
                    &&& final(self).is_loading == old(self).is_loading
                    &&& final(self).search_text == old(self).search_text
                    &&& final(self).status_text == old(self).status_text
                },
            },
    {
        match msg {
            ObjectSidebarMsg::Loading => {
                self.is_loading = true;
                self.status_text = tr("Loading schema...");
                self.objects = Vec::new();
                self.search_text = String::new();
                self.selected_object = None;
                SidebarAction::ClearRows
            },
            ObjectSidebarMsg::SetObjects(objects) => {
                self.is_loading = false;
                self.status_text = if objects.len() == 0 {
                    tr("No tables or views found")
                } else {
                    String::new()
                };
                self.objects = objects;
                SidebarAction::Render
            },
            ObjectSidebarMsg::SetError(error) => {
                self.is_loading = false;
                self.objects = Vec::new();
                self.status_text = error;
                self.search_text = String::new();
                self.selected_object = None;
                SidebarAction::ClearRows
            },
            ObjectSidebarMsg::SetSelectedObject(object) => {
                self.selected_object = match &object {
                    Some(o) => Some(object_key(o)),
                    None => None,
                };
                SidebarAction::SyncSelection
            },
            ObjectSidebarMsg::SearchChanged(text) => {
                self.search_text = text;
                SidebarAction::Render
            },
            ObjectSidebarMsg::FocusSearch => SidebarAction::FocusSearch,
            ObjectSidebarMsg::ObjectSelected(object) => {
                self.selected_object = Some(object_key(&object));
                SidebarAction::Open(object)
            },
        }
    }

    /// Which page the sidebar shows.
    pub fn visible_child_name(&self) -> (r: &'static str)
        ensures
            r == (if self.is_loading || self.objects@.len() == 0 {
                "status"
            } else {
                "list"
            }),
    {
        sidebar_visible_child_name(self.is_loading, self.objects.len() > 0)
    }

    /// Whether a search is typed.
    pub fn has_active_search(&self) -> (r: bool)
        ensures
            r == (trim_spec(self.search_text@).len() > 0),
    {
        has_active_search(self.search_text.as_str())
    }

    /// Whether any object matches the search.
    pub fn has_search_results(&self) -> (r: bool)
        ensures
            r == (exists|i: int|
                0 <= i < self.objects@.len() && name_matches(
                    (#[trigger] self.objects@[i]).name@,
                    self.search_text@,
                )),
    {
        has_search_results(&self.objects, self.search_text.as_str())
    }

    /// The objects that match the search, in their order.
    pub fn filtered_objects(&self) -> (r: Vec<&DatabaseObject>)
        ensures
            r@ == self.objects@.filter(|o: DatabaseObject| name_matches(o.name@, self.search_text@)).map_values(
                |o: DatabaseObject| &o,
            ),
    {
        filtered_objects(&self.objects, self.search_text.as_str())
    }

    /// The title of the status page: a note while loading, the status text,
    /// or a note that nothing is available when there is none.
    pub fn status_title(&self) -> (r: String)
        ensures
            !self.is_loading && self.status_text@.len() > 0 ==> r@ == self.status_text@,
            self.is_loading ==> translated("Loading schema"@, r@),
            !self.is_loading && self.status_text@.len() == 0 ==> translated("No objects available"@, r@),
    {
        if self.is_loading {
            tr("Loading schema")
        } else if self.status_text.as_str().is_empty() {
            tr("No objects available")
        } else {
            self.status_text.clone()
        }
    }

    /// The description of the status page: a note while loading, and notes
    /// for the translated "no connection" and "nothing found" statuses.
    pub fn status_description(&self) -> (r: Option<String>)
        ensures
            self.is_loading ==> (r matches Some(t) && translated(
                "Fetching tables and views for the current connection."@,
                t@,
            )),
            !self.is_loading ==> exists|no_connection: Seq<char>|
                #![trigger translated("No connection"@, no_connection)]
                translated("No connection"@, no_connection) && (self.status_text@ == no_connection ==> (
                r matches Some(t) && translated(
                    "Connect to PostgreSQL to browse database objects."@,
                    t@,
                ))) && (self.status_text@ != no_connection ==> exists|nothing_found: Seq<char>|
                    #![trigger translated("No tables or views found"@, nothing_found)]
                    translated("No tables or views found"@, nothing_found) && (self.status_text@
                        == nothing_found ==> (r matches Some(t) && translated(
                        "The selected database does not currently expose tables or views."@,
                        t@,
                    ))) && (self.status_text@ != nothing_found ==> r is None)),
    {
        if self.is_loading {
            return Some(tr("Fetching tables and views for the current connection."));
        }
        let no_connection = tr("No connection");
        if self.status_text == no_connection {
            return Some(tr("Connect to PostgreSQL to browse database objects."));
        }
        let nothing_found = tr("No tables or views found");
        if self.status_text == nothing_found {
            Some(tr("The selected database does not currently expose tables or views."))
        } else {
            None
        }
    }

    /// The icon of the status page: loading, no connection, nothing found,
    /// or an error.
    pub fn status_icon_name(&self) -> (r: &'static str)
        ensures
            self.is_loading ==> r@ == "view-refresh-symbolic"@,
            !self.is_loading ==> exists|no_connection: Seq<char>|
                #![trigger translated("No connection"@, no_connection)]
                translated("No connection"@, no_connection) && (self.status_text@ == no_connection
                    ==> r@ == "network-server-symbolic"@) && (self.status_text@ != no_connection
                    ==> exists|nothing_found: Seq<char>|
                    #![trigger translated("No tables or views found"@, nothing_found)]
                    translated("No tables or views found"@, nothing_found) && r@ == (if self.status_text@
                        == nothing_found {
                        "view-list-symbolic"@
                    } else {
                        "dialog-error-symbolic"@
                    })),
    {
        if self.is_loading {
            return "view-refresh-symbolic";
        }
        let no_connection = tr("No connection");
        if self.status_text == no_connection {
            return "network-server-symbolic";
        }
        let nothing_found = tr("No tables or views found");
        if self.status_text == nothing_found {
            "view-list-symbolic"
        } else {
            "dialog-error-symbolic"
        }
    }
}

/// The state of the database selector in the header bar.
#[derive(Debug)]
pub struct DatabaseSelector {
    pub connection_title: String,
    pub active_database: String,
    pub databases: Vec<String>,
    pub search_text: String,
    pub is_loading: bool,
}

/// What happens to the database selector.
#[derive(Debug)]
pub enum DatabaseSelectorMsg {
    SetContext { connection_title: String, active_database: String, databases: Vec<String> },
    SetDatabases(Vec<String>),
    SetLoading(bool),
    SearchChanged(String),
    /// The row at this position of the filtered list was activated.
    DatabaseRowActivated(usize),
}

/// What the selector asks the application to do.
#[derive(Debug)]
pub enum DatabaseSelectorAction {
    Nothing,
    /// Clear the search entry (after a new context) and list the databases
    /// that match the search again.
    Render { clear_search: bool },
    /// Close the popover and switch to this database.
    Select(String),
}

/// The names of the databases that match the search, in their order.
pub open spec fn matching_databases(databases: Seq<String>, search: Seq<char>) -> Seq<Seq<char>> {
    databases.map_values(|d: String| d@).filter(|d: Seq<char>| name_matches(d, search))
}

impl DatabaseSelector {
    /// A selector without a connection.
    pub fn new() -> (r: DatabaseSelector)
        ensures
            r.connection_title@.len() == 0,
            r.active_database@.len() == 0,
            r.databases@.len() == 0,
            r.search_text@.len() == 0,
            !r.is_loading,
    {
        DatabaseSelector {
            connection_title: String::new(),
            active_database: String::new(),
            databases: Vec::new(),
            search_text: String::new(),
            is_loading: false,
        }
    }

    /// Takes a message and says what the application must do. An activated
    /// row switches to its database unless it is the active one.
    pub fn update(&mut self, msg: DatabaseSelectorMsg) -> (a: DatabaseSelectorAction)
        ensures
            match msg {
                DatabaseSelectorMsg::SetContext { connection_title, active_database, databases } => {
                    &&& a == DatabaseSelectorAction::Render { clear_search: true }
                    &&& final(self).connection_title == connection_title
                    &&& final(self).active_database == active_database
                    &&& final(self).databases == databases
                    &&& final(self).search_text@.len() == 0
                    &&& final(self).is_loading == old(self).is_loading
                },
                DatabaseSelectorMsg::SetDatabases(databases) => {
                    &&& a == DatabaseSelectorAction::Render { clear_search: false }
                    &&& *final(self) == (DatabaseSelector { databases, ..*old(self) })
                },
                DatabaseSelectorMsg::SetLoading(is_loading) => {
                    &&& a is Nothing
                    &&& *final(self) == (DatabaseSelector { is_loading, ..*old(self) })
                },
                DatabaseSelectorMsg::SearchChanged(text) => {
                    &&& a == DatabaseSelectorAction::Render { clear_search: false }
                    &&& *final(self) == (DatabaseSelector { search_text: text, ..*old(self) })
                },
                DatabaseSelectorMsg::DatabaseRowActivated(index) => {
                    let shown = matching_databases(old(self).databases@, old(self).search_text@);
                    &&& *final(self) == *old(self)
                    &&& if index < shown.len() && shown[index as int] != old(self).active_database@ {
                        a matches DatabaseSelectorAction::Select(d) && d@ == shown[index as int]
                    } else {
                        a is Nothing
                    }
                },
            },
    {
        match msg {
            DatabaseSelectorMsg::SetContext { connection_title, active_database, databases } => {
                self.connection_title = connection_title;
                self.active_database = active_database;
                self.databases = databases;
                self.search_text = String::new();
                DatabaseSelectorAction::Render { clear_search: true }
            },
            DatabaseSelectorMsg::SetDatabases(databases) => {
                self.databases = databases;
                DatabaseSelectorAction::Render { clear_search: false }
            },
            DatabaseSelectorMsg::SetLoading(is_loading) => {
                self.is_loading = is_loading;
                DatabaseSelectorAction::Nothing
            },
            DatabaseSelectorMsg::SearchChanged(text) => {
                self.search_text = text;
                DatabaseSelectorAction::Render { clear_search: false }
            },
            DatabaseSelectorMsg::DatabaseRowActivated(index) => {
                let shown = filtered_databases(&self.databases, self.search_text.as_str());
                proof {
                    assert(shown@.map_values(|d: &str| d@).len() == shown@.len());
                }
                if index < shown.len() {
                    let database = shown[index];
                    proof {
                        assert(shown@.map_values(|d: &str| d@)[index as int] == database@);
                    }
                    if !crate::text::same_text(database, self.active_database.as_str()) {
                        return DatabaseSelectorAction::Select(database.to_string());
                    }
                }
                DatabaseSelectorAction::Nothing
            },
        }
    }

    /// The selector shows once a database is active.
    pub fn has_context(&self) -> (r: bool)
        ensures
            r == (self.active_database@.len() > 0),
    {
        !self.active_database.as_str().is_empty()
    }

    /// The selector can be opened when it is not loading and has databases.
    pub fn is_sensitive(&self) -> (r: bool)
        ensures
            r == (!self.is_loading && self.databases@.len() > 0),
    {
        !self.is_loading && self.databases.len() > 0
    }

    /// The label of the selector.
    pub fn active_database_label(&self) -> (r: String)
        ensures
            !self.is_loading ==> r@ == self.active_database@,
    {
        active_database_label(self.is_loading, &self.active_database)
    }

    /// Whether a search is typed.
    pub fn has_active_search(&self) -> (r: bool)
        ensures
            r == (trim_spec(self.search_text@).len() > 0),
    {
        has_active_search(self.search_text.as_str())
    }

    /// The databases that match the search.
    pub fn filtered_databases(&self) -> (r: Vec<&str>)
        ensures
            r@.map_values(|d: &str| d@) == matching_databases(self.databases@, self.search_text@),
    {
        filtered_databases(&self.databases, self.search_text.as_str())
    }

    /// Whether any database matches the search.
    pub fn has_search_results(&self) -> (r: bool)
        ensures
            r == (matching_databases(self.databases@, self.search_text@).len() > 0),
    {
        let shown = filtered_databases(&self.databases, self.search_text.as_str());
        proof {
            assert(shown@.map_values(|d: &str| d@).len() == shown@.len());
        }
        shown.len() > 0
    }
}

} // verus!
