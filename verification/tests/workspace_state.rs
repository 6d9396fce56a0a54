use codd::connection::{SecretsToLoad, SshAuthMethod, SshSecret, secrets_to_load};
use codd::filters::{
    FilterEvent, FilterOperator, FilterPanel, FilterPanelAction, TableFilter, add_filter, choice_index, default_filter_value,
    filter_actions_enabled, filter_field_index, initial_filter, normalize_filters, operator_index,
    remove_filter, select_filter_field, select_filter_operator, update_state_value,
    validate_filter_values, value_choices,
};
use codd::models::{
    ColumnTypeGroup, DatabaseObject, DatabaseObjectKind, QueryHistoryEntry, SavedConnection,
    StructureActionKind, TableColumn,
};
use codd::object_groups::objects_by_schema;
use codd::results::query_export_error_message;
use codd::queries::{RunDecision, row_limit_notice_msgid};
use codd::session::{
    ConnectionsChange, SessionAction, SessionEvent, SessionState, TableScriptKind,
    external_connections_change, notice_text, table_script_generated_msgid,
};
use codd::workspace::{tab_id_from_widget_name, tab_widget_name};
use codd::models::{QueryExecutionResult, QueryResult};
use codd::sidebar::{
    DatabaseSelector, DatabaseSelectorAction, DatabaseSelectorMsg, ObjectSidebar,
    ObjectSidebarMsg, SidebarAction,
};
use codd::sql_scanner::{completion_icon_name, sql_completion_context};
use codd::structure::{
    constraint_summary, copied_message_msgid, foreign_key_subtitle, nullable_label_msgid,
    trigger_subtitle,
};
use codd::structure_view::{TableStructureAction, TableStructureMsg, TableStructureView};
use codd::tab_session::{SessionRestored, SessionTab, SessionTabId};
use codd::tab_strip::{QueryTabClosed, TabStrip, TableTabOpened};
use codd::table_browser::{BrowserAction, TableBrowser, TableBrowserMsg};
use codd::views::{
    SqlEditor, SqlEditorAction, SqlEditorMsg, StartScreen, StartScreenAction, StartScreenMsg,
    TableView, TableViewAction, TableViewMode, TableViewMsg, connection_subtitle,
    remove_connection_body,
};
use codd::models::CompletionItemKind;

fn object(schema: &str, name: &str, kind: DatabaseObjectKind) -> DatabaseObject {
    DatabaseObject { schema: schema.to_string(), name: name.to_string(), kind }
}

fn table(schema: &str, name: &str) -> DatabaseObject {
    object(schema, name, DatabaseObjectKind::Table)
}

fn column(name: &str, type_group: ColumnTypeGroup, enum_values: &[&str]) -> TableColumn {
    TableColumn {
        name: name.to_string(),
        display_type: "text".to_string(),
        sql_type_name: "text".to_string(),
        enum_values: enum_values.iter().map(|v| v.to_string()).collect(),
        type_group,
        is_array: false,
        is_range: false,
        is_nullable: true,
        is_primary_key: false,
        has_default: false,
        is_identity: false,
        is_generated: false,
        ordinal_position: 1,
    }
}

const EQUALS: FilterOperator = FilterOperator { code: 1, needs_value: true };
const IS_NULL: FilterOperator = FilterOperator { code: 2, needs_value: false };
const CONTAINS: FilterOperator = FilterOperator { code: 3, needs_value: true };

#[test]
fn structure_view_takes_only_the_current_answer() {
    let mut view: TableStructureView<u32> = TableStructureView::new();
    assert_eq!(view.update(TableStructureMsg::Refresh), TableStructureAction::Nothing);
    let first = view.update(TableStructureMsg::Open(table("public", "users")));
    assert_eq!(first, TableStructureAction::Load { id: 0 });
    assert!(view.is_loading);
    assert_eq!(view.status_icon_name(), "view-refresh-symbolic");
    let second = view.update(TableStructureMsg::Refresh);
    assert_eq!(second, TableStructureAction::Load { id: 1 });
    assert_eq!(
        view.update(TableStructureMsg::StructureLoaded { id: 0, result: Ok(7) }),
        TableStructureAction::Nothing
    );
    assert!(view.structure.is_none());
    assert_eq!(
        view.update(TableStructureMsg::StructureLoaded { id: 1, result: Ok(9) }),
        TableStructureAction::Render
    );
    assert_eq!(view.structure, Some(9));
    assert!(view.shows_structure());
    assert!(view.status_title.is_empty());
    assert_eq!(view.status_icon_name(), "table-symbolic");
    assert_eq!(
        view.update(TableStructureMsg::StructureLoaded { id: 1, result: Ok(11) }),
        TableStructureAction::Nothing
    );
    assert_eq!(view.structure, Some(9));
}

#[test]
fn structure_view_shows_a_failed_load() {
    let mut view: TableStructureView<u32> = TableStructureView::new();
    view.update(TableStructureMsg::Open(table("public", "users")));
    let action = view.update(TableStructureMsg::StructureLoaded {
        id: 0,
        result: Err("relation does not exist".to_string()),
    });
    assert_eq!(action, TableStructureAction::Render);
    assert!(view.is_error);
    assert_eq!(view.status_description.as_deref(), Some("relation does not exist"));
    assert_eq!(view.status_icon_name(), "dialog-error-symbolic");
}

#[test]
fn structure_detail_texts() {
    assert_eq!(constraint_summary("Check", true, false, false), "Check");
    assert_eq!(
        constraint_summary("Unique", false, true, true),
        "Unique · Not validated · Deferred"
    );
    assert_eq!(constraint_summary("Check", true, true, false), "Check · Deferrable");
    let columns = vec!["customer_id".to_string(), "region".to_string()];
    let referenced = vec!["id".to_string(), "region".to_string()];
    assert_eq!(
        foreign_key_subtitle(&columns, "sales", "customers", &referenced, "CASCADE", "NO ACTION"),
        "customer_id, region -> sales.customers (id, region) · ON UPDATE CASCADE · ON DELETE NO ACTION"
    );
    assert_eq!(
        trigger_subtitle("audit", "log_change", "AFTER UPDATE ON users"),
        "audit.log_change · AFTER UPDATE ON users"
    );
    assert_eq!(nullable_label_msgid(true), "Yes");
    assert_eq!(nullable_label_msgid(false), "No");
    assert_eq!(copied_message_msgid(StructureActionKind::ForeignKey), "Foreign key name copied.");
}

#[test]
fn session_connects_and_loads() {
    let mut session = SessionState::new();
    match session.update(SessionEvent::Connected("app".to_string())) {
        SessionAction::LoadAfterConnect { schema_id, database_list_id } => {
            assert_eq!(schema_id, 0);
            assert_eq!(database_list_id, 0);
        }
        other => panic!("unexpected {other:?}"),
    }
    assert!(session.connected);
    match session.update(SessionEvent::DatabasesLoaded {
        id: 0,
        result: Ok(vec!["postgres".to_string(), "template1".to_string()]),
    }) {
        SessionAction::ShowDatabases(databases) => {
            assert_eq!(databases, vec!["app", "postgres", "template1"]);
        }
        other => panic!("unexpected {other:?}"),
    }
    match session.update(SessionEvent::SchemaLoaded { id: 0, result: Ok(vec![table("public", "a")]) }) {
        SessionAction::ShowObjects(objects) => assert_eq!(objects.len(), 1),
        other => panic!("unexpected {other:?}"),
    }
    assert!(matches!(
        session.update(SessionEvent::SchemaLoaded { id: 0, result: Ok(Vec::new()) }),
        SessionAction::Nothing
    ));
}

#[test]
fn session_switches_databases() {
    let mut session = SessionState::new();
    assert!(matches!(
        session.update(SessionEvent::DatabaseSelected("other".to_string())),
        SessionAction::Notice("Connect to PostgreSQL before switching databases.")
    ));
    session.update(SessionEvent::Connected("app".to_string()));
    session.update(SessionEvent::DatabasesLoaded { id: 0, result: Err("denied".to_string()) });
    assert_eq!(session.available_databases, vec!["app"]);
    assert!(matches!(
        session.update(SessionEvent::DatabaseSelected("app".to_string())),
        SessionAction::Nothing
    ));
    let id = match session.update(SessionEvent::DatabaseSelected("reports".to_string())) {
        SessionAction::SwitchDatabase { id, database } => {
            assert_eq!(database, "reports");
            id
        }
        other => panic!("unexpected {other:?}"),
    };
    assert!(matches!(
        session.update(SessionEvent::DatabaseSwitched {
            id: id + 1,
            database: "reports".to_string(),
            result: Ok(()),
        }),
        SessionAction::Nothing
    ));
    match session.update(SessionEvent::DatabaseSwitched {
        id,
        database: "reports".to_string(),
        result: Ok(()),
    }) {
        SessionAction::DatabaseSwitched { database, databases } => {
            assert_eq!(database, "reports");
            assert_eq!(databases, vec!["reports", "app"]);
        }
        other => panic!("unexpected {other:?}"),
    }
    assert_eq!(session.active_database.as_deref(), Some("reports"));
}

#[test]
fn session_switch_failure_and_disconnect() {
    let mut session = SessionState::new();
    session.update(SessionEvent::Connected("app".to_string()));
    let id = match session.update(SessionEvent::DatabaseSelected("x".to_string())) {
        SessionAction::SwitchDatabase { id, .. } => id,
        other => panic!("unexpected {other:?}"),
    };
    match session.update(SessionEvent::DatabaseSwitched {
        id,
        database: "x".to_string(),
        result: Err("no such database".to_string()),
    }) {
        SessionAction::SwitchFailed(error) => assert_eq!(error, "no such database"),
        other => panic!("unexpected {other:?}"),
    }
    let generation = match session.update(SessionEvent::TableScriptRequested {
        object: table("public", "a"),
        kind: TableScriptKind::Select,
    }) {
        SessionAction::GenerateScript { generation, .. } => generation,
        other => panic!("unexpected {other:?}"),
    };
    assert!(matches!(session.update(SessionEvent::Disconnected), SessionAction::ClearWorkspace));
    assert!(matches!(
        session.update(SessionEvent::TableScriptGenerated {
            generation,
            kind: TableScriptKind::Select,
            result: Ok("SELECT 1".to_string()),
        }),
        SessionAction::Nothing
    ));
    assert!(matches!(
        session.update(SessionEvent::SchemaLoaded { id: 0, result: Ok(Vec::new()) }),
        SessionAction::Nothing
    ));
    assert!(matches!(
        session.update(SessionEvent::TableScriptRequested {
            object: table("public", "a"),
            kind: TableScriptKind::Create,
        }),
        SessionAction::Notice("Connect to PostgreSQL before generating a script.")
    ));
}

#[test]
fn session_messages() {
    assert_eq!(table_script_generated_msgid(TableScriptKind::Insert), "INSERT script generated.");
    assert_eq!(notice_text("Database switch failed", Some("timeout")), "Database switch failed: timeout");
    assert_eq!(notice_text("Connected to PostgreSQL.", None), "Connected to PostgreSQL.");
}

#[test]
fn closing_the_active_query_tab_selects_its_neighbour() {
    let mut strip = TabStrip::new();
    let first = strip.add_query_tab();
    let second = strip.add_query_tab();
    let third = strip.add_query_tab();
    assert_eq!((first, second, third), (0, 1, 2));
    strip.active_query_tab_id = second;
    assert_eq!(strip.close_query_tab(second), QueryTabClosed::Closed { select: Some(third) });
    assert_eq!(strip.query_tabs, vec![0, 2]);
    assert_eq!(strip.close_query_tab(third), QueryTabClosed::Closed { select: Some(first) });
    assert_eq!(strip.close_query_tab(first), QueryTabClosed::Kept);
    assert_eq!(strip.query_tabs, vec![0]);
    assert_eq!(strip.close_query_tab(42), QueryTabClosed::Kept);
}

#[test]
fn opening_a_table_reuses_its_tab() {
    let mut strip = TabStrip::new();
    strip.add_query_tab();
    assert_eq!(strip.open_table(table("public", "users"), false), TableTabOpened::Nothing);
    assert_eq!(strip.open_table(table("public", "users"), true), TableTabOpened::Added { tab_id: 0 });
    assert_eq!(
        strip.open_table(table("public", "users"), true),
        TableTabOpened::SelectExisting { tab_id: 0, load: false, refresh: true }
    );
    strip.add_browse_tab_with_id(5, table("public", "orders"), false);
    assert_eq!(strip.next_browse_tab_id, 6);
    assert_eq!(
        strip.open_table(table("public", "orders"), true),
        TableTabOpened::SelectExisting { tab_id: 5, load: true, refresh: false }
    );
    assert!(strip.close_browse_tab(0));
    assert_eq!(strip.tab_count(), 2);
}

#[test]
fn renaming_and_dropping_objects_update_their_tabs() {
    let mut strip = TabStrip::new();
    strip.add_query_tab();
    strip.open_table(table("public", "users"), true);
    strip.open_table(table("public", "orders"), true);
    let renamed = strip.rename_object(&table("public", "users"), "people");
    assert_eq!(renamed, vec![0]);
    assert_eq!(strip.browse_tabs[0].object.name, "people");
    assert_eq!(strip.browse_tabs[1].object.name, "orders");
    assert_eq!(strip.loaded_tabs_of(&table("public", "orders")), vec![1]);
    let removed = strip.remove_object(&table("public", "orders"));
    assert_eq!(removed, vec![1]);
    assert_eq!(strip.browse_tabs.len(), 1);
    let (query, browse) = strip.tabs_to_close_except(Some(0), None);
    assert!(query.is_empty());
    assert_eq!(browse, vec![0]);
    let (query, browse) = strip.tabs_to_close_except(None, None);
    assert!(query.is_empty() && browse.is_empty());
    strip.clear();
    assert_eq!(strip.tab_count(), 0);
    assert_eq!(strip.active_query_tab_id, 0);
}

#[test]
fn objects_group_by_schema_in_order() {
    let objects = vec![
        object("sales", "Orders", DatabaseObjectKind::Table),
        object("public", "zeta", DatabaseObjectKind::View),
        object("public", "beta", DatabaseObjectKind::Table),
        object("public", "Alpha", DatabaseObjectKind::Table),
        object("archive", "x", DatabaseObjectKind::Table),
        object("public", "alpha", DatabaseObjectKind::Table),
    ];
    let refs: Vec<&DatabaseObject> = objects.iter().collect();
    let groups = objects_by_schema(&refs);
    let schemas: Vec<&str> = groups.iter().map(|g| g.schema.as_str()).collect();
    assert_eq!(schemas, vec!["archive", "public", "sales"]);
    let public: Vec<&str> = groups[1].objects.iter().map(|o| o.name.as_str()).collect();
    assert_eq!(public, vec!["Alpha", "alpha", "beta", "zeta"]);
    assert_eq!(groups[1].positions, vec![3, 5, 2, 1]);
    assert!(objects_by_schema(&Vec::new()).is_empty());
}

#[test]
fn object_sidebar_follows_the_schema_load() {
    let mut sidebar = ObjectSidebar::new();
    assert_eq!(sidebar.visible_child_name(), "status");
    assert_eq!(sidebar.status_icon_name(), "network-server-symbolic");
    assert!(matches!(sidebar.update(ObjectSidebarMsg::Loading), SidebarAction::ClearRows));
    assert_eq!(sidebar.status_icon_name(), "view-refresh-symbolic");
    assert!(matches!(
        sidebar.update(ObjectSidebarMsg::SetObjects(vec![table("public", "users")])),
        SidebarAction::Render
    ));
    assert_eq!(sidebar.visible_child_name(), "list");
    sidebar.update(ObjectSidebarMsg::SearchChanged("  USE ".to_string()));
    assert!(sidebar.has_active_search());
    assert!(sidebar.has_search_results());
    assert_eq!(sidebar.filtered_objects().len(), 1);
    match sidebar.update(ObjectSidebarMsg::ObjectSelected(table("public", "users"))) {
        SidebarAction::Open(object) => assert_eq!(object.name, "users"),
        other => panic!("unexpected {other:?}"),
    }
    assert_eq!(sidebar.selected_object.as_deref(), Some("table-symbolic\u{1f}public\u{1f}users"));
    sidebar.update(ObjectSidebarMsg::SetObjects(Vec::new()));
    assert_eq!(sidebar.status_icon_name(), "view-list-symbolic");
    sidebar.update(ObjectSidebarMsg::SetError("Schema load failed: boom".to_string()));
    assert_eq!(sidebar.status_title(), "Schema load failed: boom");
    assert_eq!(sidebar.status_icon_name(), "dialog-error-symbolic");
    assert!(sidebar.status_description().is_none());
}

#[test]
fn database_selector_switches_only_to_other_databases() {
    let mut selector = DatabaseSelector::new();
    assert!(!selector.has_context());
    selector.update(DatabaseSelectorMsg::SetContext {
        connection_title: "local".to_string(),
        active_database: "app".to_string(),
        databases: vec!["app".to_string(), "reports".to_string(), "archive".to_string()],
    });
    assert!(selector.has_context());
    assert!(selector.is_sensitive());
    selector.update(DatabaseSelectorMsg::SearchChanged("R".to_string()));
    assert_eq!(selector.filtered_databases(), vec!["reports", "archive"]);
    match selector.update(DatabaseSelectorMsg::DatabaseRowActivated(1)) {
        DatabaseSelectorAction::Select(database) => assert_eq!(database, "archive"),
        other => panic!("unexpected {other:?}"),
    }
    selector.update(DatabaseSelectorMsg::SearchChanged(String::new()));
    assert!(matches!(
        selector.update(DatabaseSelectorMsg::DatabaseRowActivated(0)),
        DatabaseSelectorAction::Nothing
    ));
    assert!(matches!(
        selector.update(DatabaseSelectorMsg::DatabaseRowActivated(9)),
        DatabaseSelectorAction::Nothing
    ));
    selector.update(DatabaseSelectorMsg::SetLoading(true));
    assert!(!selector.is_sensitive());
    assert_eq!(selector.active_database_label(), "Loading...");
}

#[test]
fn completion_context_splits_at_the_cursor() {
    let context = sql_completion_context("select 1; select na", 17);
    assert_eq!(context.before_cursor, "select 1; select ");
    assert_eq!(context.full_sql, " select na");
    let context = sql_completion_context("select", 99);
    assert_eq!(context.before_cursor, "select");
    assert_eq!(completion_icon_name(CompletionItemKind::MaterializedView), "view-list-symbolic");
    assert_eq!(completion_icon_name(CompletionItemKind::Function), "lang-function-symbolic");
}

#[test]
fn table_view_switches_pages() {
    let mut view = TableView::new();
    assert!(!view.can_show_structure());
    assert!(matches!(view.update(TableViewMsg::ShowStructure), TableViewAction::ShowContent));
    view.update(TableViewMsg::Open(table("public", "users")));
    assert_eq!(view.object_title(), "users");
    assert_eq!(view.object_context(), "public · Table");
    assert!(matches!(
        view.update(TableViewMsg::ShowStructure),
        TableViewAction::ShowStructure { open: true }
    ));
    assert_eq!(view.mode.visible_child_name(), "structure");
    assert!(matches!(
        view.update(TableViewMsg::ShowStructure),
        TableViewAction::ShowStructure { open: false }
    ));
    assert!(matches!(view.update(TableViewMsg::Refresh), TableViewAction::RefreshStructure));
    match view.update(TableViewMsg::ObjectRenamed(table("public", "people"))) {
        TableViewAction::RenameInBrowser { object, open_structure } => {
            assert_eq!(object.name, "people");
            assert!(open_structure);
        }
        other => panic!("unexpected {other:?}"),
    }
    view.update(TableViewMsg::ShowContent);
    assert_eq!(view.mode, TableViewMode::Content);
    assert!(matches!(view.update(TableViewMsg::Refresh), TableViewAction::RefreshBrowser));
    view.update(TableViewMsg::Open(object("public", "v", DatabaseObjectKind::View)));
    assert!(matches!(view.update(TableViewMsg::ShowStructure), TableViewAction::ShowContent));
}

#[test]
fn sql_editor_history_selection() {
    let mut editor = SqlEditor::new();
    assert!(matches!(editor.update(SqlEditorMsg::RunRequested), SqlEditorAction::Run));
    editor.update(SqlEditorMsg::SetRunning(true));
    assert!(matches!(editor.update(SqlEditorMsg::RunRequested), SqlEditorAction::Nothing));
    assert!(matches!(
        editor.update(SqlEditorMsg::InsertSelectedHistoryRequested),
        SqlEditorAction::Nothing
    ));
    let history = vec![
        QueryHistoryEntry { sql: "select 1".to_string(), executed_at: 10 },
        QueryHistoryEntry { sql: "select 2".to_string(), executed_at: 5 },
    ];
    editor.update(SqlEditorMsg::SetHistory(history));
    assert_eq!(editor.selected_history_index, Some(0));
    assert_eq!(editor.history_preview(), "select 1");
    editor.update(SqlEditorMsg::HistoryRowSelected(1));
    match editor.update(SqlEditorMsg::InsertSelectedHistoryRequested) {
        SqlEditorAction::InsertHistory(sql) => assert_eq!(sql, "select 2"),
        other => panic!("unexpected {other:?}"),
    }
    editor.update(SqlEditorMsg::HistoryRowSelected(7));
    assert_eq!(editor.selected_history_index, None);
    assert_eq!(editor.history_preview(), "");
}

#[test]
fn start_screen_renames_with_trimmed_names() {
    let connection = SavedConnection {
        id: "c1".to_string(),
        name: "Local".to_string(),
        host: "localhost".to_string(),
        port: 5432,
        username: "postgres".to_string(),
        database: "app".to_string(),
        save_password: false,
    };
    assert_eq!(connection_subtitle(&connection), "postgres@localhost:5432/app");
    let mut screen = StartScreen::new(Vec::new());
    assert_eq!(screen.visible_child_name(), "empty");
    screen.update(StartScreenMsg::SetConnections(vec![connection]));
    assert_eq!(screen.visible_child_name(), "list");
    match screen.update(StartScreenMsg::RenameConfirmed { id: "c1".to_string(), name: "  Prod ".to_string() }) {
        StartScreenAction::Rename { id, name } => {
            assert_eq!(id, "c1");
            assert_eq!(name, "Prod");
        }
        other => panic!("unexpected {other:?}"),
    }
    assert!(matches!(
        screen.update(StartScreenMsg::RenameConfirmed { id: "c1".to_string(), name: "   ".to_string() }),
        StartScreenAction::Nothing
    ));
    assert_eq!(remove_connection_body("Local"), "Remove the saved connection “Local”?");
}

#[test]
fn filters_start_from_the_first_column() {
    let columns = vec![column("active", ColumnTypeGroup::Boolean, &[]), column("name", ColumnTypeGroup::Text, &[])];
    let operators = vec![vec![EQUALS, IS_NULL], vec![CONTAINS, EQUALS]];
    match initial_filter(&columns, &operators) {
        Some(TableFilter::Column { column_name, operator, value }) => {
            assert_eq!(column_name, "active");
            assert_eq!(operator, EQUALS);
            assert_eq!(value.as_deref(), Some("true"));
        }
        other => panic!("unexpected {other:?}"),
    }
    assert!(initial_filter(&Vec::new(), &Vec::new()).is_none());
    let mood = column("mood", ColumnTypeGroup::Text, &["happy", "sad"]);
    assert_eq!(default_filter_value(&mood, EQUALS).as_deref(), Some("happy"));
    assert_eq!(default_filter_value(&mood, IS_NULL), None);
    assert_eq!(default_filter_value(&columns[1], EQUALS), None);
}

#[test]
fn incomplete_filters_are_refused() {
    let blank_sql = vec![TableFilter::CustomSql { expression: "  ".to_string() }];
    assert_eq!(validate_filter_values(&blank_sql), Err("Missing custom SQL filter".to_string()));
    let missing = vec![
        TableFilter::Column { column_name: "a".to_string(), operator: IS_NULL, value: None },
        TableFilter::Column { column_name: "b".to_string(), operator: EQUALS, value: Some(" ".to_string()) },
    ];
    assert_eq!(validate_filter_values(&missing), Err("Missing value for filter: b".to_string()));
    let fine = vec![
        TableFilter::Column { column_name: "a".to_string(), operator: EQUALS, value: Some("1".to_string()) },
        TableFilter::CustomSql { expression: "id > 3".to_string() },
    ];
    assert_eq!(validate_filter_values(&fine), Ok(()));
}

#[test]
fn filters_are_normalized_for_the_loaded_columns() {
    let columns = vec![column("active", ColumnTypeGroup::Boolean, &[]), column("name", ColumnTypeGroup::Text, &[])];
    let operators = vec![vec![EQUALS, IS_NULL], vec![CONTAINS]];
    let filters = vec![
        TableFilter::Column { column_name: "gone".to_string(), operator: EQUALS, value: None },
        TableFilter::Column { column_name: "active".to_string(), operator: IS_NULL, value: Some("x".to_string()) },
        TableFilter::Column { column_name: "name".to_string(), operator: EQUALS, value: Some("bob".to_string()) },
        TableFilter::CustomSql { expression: "true".to_string() },
        TableFilter::Column { column_name: "active".to_string(), operator: EQUALS, value: None },
    ];
    let normalized = normalize_filters(&columns, &operators, &filters);
    assert_eq!(normalized.len(), 4);
    match &normalized[0] {
        TableFilter::Column { column_name, operator, value } => {
            assert_eq!(column_name, "active");
            assert_eq!(*operator, IS_NULL);
            assert_eq!(*value, None);
        }
        other => panic!("unexpected {other:?}"),
    }
    match &normalized[1] {
        TableFilter::Column { operator, value, .. } => {
            assert_eq!(*operator, CONTAINS);
            assert_eq!(value.as_deref(), Some("bob"));
        }
        other => panic!("unexpected {other:?}"),
    }
    match &normalized[3] {
        TableFilter::Column { value, .. } => assert_eq!(value.as_deref(), Some("true")),
        other => panic!("unexpected {other:?}"),
    }
    assert_eq!(filter_field_index(&columns, &normalized[1]), 1);
    assert_eq!(filter_field_index(&columns, &normalized[2]), 2);
    assert_eq!(filter_field_index(&columns, &filters[0]), 0);
    assert_eq!(operator_index(&operators[0], IS_NULL), 1);
    assert_eq!(operator_index(&operators[0], CONTAINS), 0);
    assert_eq!(choice_index(&vec!["FALSE", "TRUE"], Some("TRUE")), 1);
    assert_eq!(choice_index(&vec!["FALSE", "TRUE"], None), 0);
    let mut state = normalized.clone();
    update_state_value(&mut state, 2, Some("x > 1".to_string()));
    match &state[2] {
        TableFilter::CustomSql { expression } => assert_eq!(expression, "x > 1"),
        other => panic!("unexpected {other:?}"),
    }
    update_state_value(&mut state, 2, None);
    match &state[2] {
        TableFilter::CustomSql { expression } => assert_eq!(expression, ""),
        other => panic!("unexpected {other:?}"),
    }
    update_state_value(&mut state, 9, None);
    assert_eq!(state.len(), 4);
}

#[test]
fn filter_panel_applies_only_complete_filters() {
    let mut panel = FilterPanel::new();
    let mut browser = TableBrowser::new(50);
    browser.update(TableBrowserMsg::Open(table("public", "users")));
    let incomplete = vec![TableFilter::Column { column_name: "a".to_string(), operator: EQUALS, value: None }];
    match panel.update(FilterEvent::Apply(incomplete)) {
        FilterPanelAction::Refused { heading, detail } => {
            assert_eq!(heading, "Filter cannot be applied");
            assert_eq!(detail, "Missing value for filter: a");
        }
        other => panic!("unexpected {other:?}"),
    }
    assert!(!panel.has_active_filters());
    let complete = vec![TableFilter::Column { column_name: "a".to_string(), operator: IS_NULL, value: None }];
    let count = match panel.update(FilterEvent::Apply(complete)) {
        FilterPanelAction::Applied(count) => count,
        other => panic!("unexpected {other:?}"),
    };
    assert_eq!(count, 1);
    assert_eq!(panel.draft_filters.len(), 1);
    match browser.update(TableBrowserMsg::FiltersApplied(count)) {
        BrowserAction::LoadPage { offset, .. } => assert_eq!(offset, 0),
        other => panic!("unexpected {other:?}"),
    }
    assert_eq!(browser.active_filter_count, 1);
    assert!(browser.filters_expanded);
    assert!(matches!(browser.update(TableBrowserMsg::ToggleFilters), BrowserAction::Nothing));
    assert!(!browser.filters_expanded);
    assert!(matches!(panel.update(FilterEvent::Clear), FilterPanelAction::Cleared));
    assert!(!panel.has_active_filters());
    let columns = vec![column("active", ColumnTypeGroup::Boolean, &[])];
    let operators = vec![vec![EQUALS]];
    assert!(panel.start_first_filter(&columns, &operators));
    assert!(!panel.start_first_filter(&columns, &operators));
    assert!(matches!(
        panel.update(FilterEvent::DraftValuesChanged(Vec::new())),
        FilterPanelAction::Nothing
    ));
    assert!(matches!(panel.update(FilterEvent::DraftChanged(Vec::new())), FilterPanelAction::Rebuild));
    panel.reset();
    assert!(panel.draft_filters.is_empty());
}

#[test]
fn saved_secrets_are_read_only_when_missing() {
    assert_eq!(
        secrets_to_load("", true, Some(true), SshAuthMethod::PrivateKey, "", ""),
        SecretsToLoad { password: true, ssh_secret: Some(SshSecret::KeyPassphrase) }
    );
    assert_eq!(
        secrets_to_load("typed", true, Some(true), SshAuthMethod::Password, "", "x"),
        SecretsToLoad { password: false, ssh_secret: Some(SshSecret::Password) }
    );
    assert_eq!(
        secrets_to_load("", false, Some(false), SshAuthMethod::Password, "", ""),
        SecretsToLoad { password: false, ssh_secret: None }
    );
    assert_eq!(
        secrets_to_load("", true, None, SshAuthMethod::Agent, "", ""),
        SecretsToLoad { password: true, ssh_secret: None }
    );
}

#[test]
fn export_errors_of_the_read_only_transaction_are_explained() {
    assert_eq!(query_export_error_message("syntax error at end"), "syntax error at end");
    let explained = query_export_error_message("ERROR: cannot execute UPDATE in a READ-ONLY transaction");
    assert!(explained.starts_with("CSV export runs queries in a read-only transaction.\n\n"));
    assert!(explained.ends_with("cannot be exported."));
}

#[test]
fn tab_widget_names_give_back_their_ids() {
    let name = tab_widget_name("query-tab-", 907);
    assert_eq!(name, "query-tab-907");
    assert_eq!(tab_id_from_widget_name(Some(&name), "query-tab-"), Some(907));
    let name = tab_widget_name("browse-tab-", u64::MAX);
    assert_eq!(tab_id_from_widget_name(Some(&name), "browse-tab-"), Some(u64::MAX));
    assert_eq!(tab_id_from_widget_name(Some(&name), "query-tab-"), None);
}

#[test]
fn connections_changed_elsewhere() {
    let connection = |id: &str| SavedConnection {
        id: id.to_string(),
        name: id.to_uppercase(),
        host: "localhost".to_string(),
        port: 5432,
        username: "postgres".to_string(),
        database: "app".to_string(),
        save_password: true,
    };
    let list = vec![connection("a"), connection("b")];
    assert_eq!(external_connections_change(None, &list, true), ConnectionsChange::NoActiveConnection);
    let b = "b".to_string();
    assert_eq!(
        external_connections_change(Some(&b), &list, true),
        ConnectionsChange::ActiveUpdated { index: 1 }
    );
    let c = "c".to_string();
    assert_eq!(
        external_connections_change(Some(&c), &list, true),
        ConnectionsChange::ActiveRemoved { leave_workspace: true }
    );
    assert_eq!(
        external_connections_change(Some(&c), &list, false),
        ConnectionsChange::ActiveRemoved { leave_workspace: false }
    );
}

#[test]
fn refused_runs_and_row_limits_are_noticed() {
    assert_eq!(RunDecision::AlreadyRunning.notice_msgid(), Some("A query is already running."));
    assert_eq!(RunDecision::EmptySql.notice_msgid(), Some("Enter SQL before running a query."));
    assert_eq!(RunDecision::Started(3).notice_msgid(), None);
    let rows = QueryExecutionResult::Rows(QueryResult {
        columns: vec!["n".to_string()],
        rows: vec![vec!["1".to_string()]],
        row_limit: Some(1),
        row_limit_reached: true,
    });
    assert_eq!(row_limit_notice_msgid(true, &rows), Some("Row limit reached. Query execution stopped."));
    assert_eq!(row_limit_notice_msgid(false, &rows), None);
    assert_eq!(row_limit_notice_msgid(true, &QueryExecutionResult::AffectedRows(4)), None);
}

#[test]
fn editing_draft_filters() {
    let columns = vec![
        column("active", ColumnTypeGroup::Boolean, &[]),
        column("mood", ColumnTypeGroup::Text, &["happy", "sad"]),
    ];
    let operators = vec![vec![EQUALS, IS_NULL], vec![EQUALS, IS_NULL, CONTAINS]];
    let mut filters = Vec::new();
    add_filter(&mut filters, &columns, &operators);
    assert_eq!(filters.len(), 1);
    assert!(select_filter_operator(&mut filters, 0, &columns, &operators, 1));
    match &filters[0] {
        TableFilter::Column { operator, value, .. } => {
            assert_eq!(*operator, IS_NULL);
            assert_eq!(*value, None);
        }
        other => panic!("unexpected {other:?}"),
    }
    assert!(select_filter_operator(&mut filters, 0, &columns, &operators, 0));
    match &filters[0] {
        TableFilter::Column { value, .. } => assert_eq!(value.as_deref(), Some("true")),
        other => panic!("unexpected {other:?}"),
    }
    assert!(!select_filter_operator(&mut filters, 0, &columns, &operators, 5));
    select_filter_field(&mut filters, 0, &columns, &operators, 1);
    match &filters[0] {
        TableFilter::Column { column_name, operator, value } => {
            assert_eq!(column_name, "mood");
            assert_eq!(*operator, EQUALS);
            assert_eq!(value.as_deref(), Some("happy"));
        }
        other => panic!("unexpected {other:?}"),
    }
    update_state_value(&mut filters, 0, Some(String::new()));
    assert!(select_filter_operator(&mut filters, 0, &columns, &operators, 2));
    match &filters[0] {
        TableFilter::Column { operator, value, .. } => {
            assert_eq!(*operator, CONTAINS);
            assert_eq!(value.as_deref(), Some("happy"));
        }
        other => panic!("unexpected {other:?}"),
    }
    select_filter_field(&mut filters, 0, &columns, &operators, 2);
    match &filters[0] {
        TableFilter::CustomSql { expression } => assert!(expression.is_empty()),
        other => panic!("unexpected {other:?}"),
    }
    assert!(!select_filter_operator(&mut filters, 0, &columns, &operators, 0));
    assert!(filter_actions_enabled(filters.len(), false));
    remove_filter(&mut filters, 3);
    assert_eq!(filters.len(), 1);
    remove_filter(&mut filters, 0);
    assert!(filters.is_empty());
    assert!(!filter_actions_enabled(0, false));
    assert!(filter_actions_enabled(0, true));
    assert_eq!(value_choices(&columns[0]), Some(vec!["false".to_string(), "true".to_string()]));
    assert_eq!(value_choices(&columns[1]), Some(vec!["happy".to_string(), "sad".to_string()]));
    assert_eq!(value_choices(&column("n", ColumnTypeGroup::Numeric, &[])), None);
}

fn page_names(names: &[&str]) -> Vec<String> {
    names.iter().map(|name| name.to_string()).collect()
}

fn same_session_tab(a: &SessionTab, b: &SessionTab) -> bool {
    match (a, b) {
        (SessionTab::Query { id: x }, SessionTab::Query { id: y }) => x == y,
        (
            SessionTab::Browse { id: x, object: o },
            SessionTab::Browse { id: y, object: p },
        ) => x == y && o.schema == p.schema && o.name == p.name && o.kind == p.kind,
        _ => false,
    }
}

#[test]
fn saving_a_session_follows_the_page_order() {
    let mut strip = TabStrip::new();
    strip.add_query_tab_with_id(4);
    strip.add_browse_tab_with_id(2, table("public", "users"), true);
    strip.add_query_tab_with_id(9);
    let saved = strip.session_tabs(&page_names(&[
        "browse-tab-2",
        "query-tab-9",
        "query-tab-7",
        "results",
        "query-tab-4",
        "browse-tab-3",
    ]));
    assert_eq!(saved.len(), 3);
    assert!(same_session_tab(&saved[0], &SessionTab::Browse { id: 2, object: table("public", "users") }));
    assert!(same_session_tab(&saved[1], &SessionTab::Query { id: 9 }));
    assert!(same_session_tab(&saved[2], &SessionTab::Query { id: 4 }));
}

#[test]
fn restoring_a_session_selects_its_active_tab() {
    let mut strip = TabStrip::new();
    strip.add_query_tab_with_id(1);
    let tabs = vec![
        SessionTab::Query { id: 5 },
        SessionTab::Browse { id: 8, object: table("sales", "orders") },
        SessionTab::Query { id: 6 },
    ];
    let restored = strip.restore_session(&tabs, Some(SessionTabId::Browse(8)), true);
    assert_eq!(
        restored,
        SessionRestored { selected: SessionTabId::Browse(8), added_query_tab: None, load_selected: true }
    );
    assert_eq!(strip.query_tabs, vec![5, 6]);
    assert_eq!(strip.active_query_tab_id, 6);
    assert_eq!(strip.browse_tabs.len(), 1);
    assert_eq!(strip.browse_tabs[0].id, 8);
    assert!(strip.browse_tabs[0].loaded);
    assert_eq!(strip.next_query_tab_id, 7);
    assert_eq!(strip.next_browse_tab_id, 9);

    let saved = strip.session_tabs(&page_names(&["query-tab-5", "browse-tab-8", "query-tab-6"]));
    assert_eq!(saved.len(), tabs.len());
    for (a, b) in saved.iter().zip(tabs.iter()) {
        assert!(same_session_tab(a, b));
    }
}

#[test]
fn restoring_a_session_falls_back_to_a_query_tab() {
    let mut strip = TabStrip::new();
    let tabs = vec![SessionTab::Query { id: 3 }, SessionTab::Query { id: 2 }];
    let restored = strip.restore_session(&tabs, Some(SessionTabId::Browse(3)), true);
    assert_eq!(
        restored,
        SessionRestored { selected: SessionTabId::Query(2), added_query_tab: None, load_selected: false }
    );

    let mut strip = TabStrip::new();
    let tabs = vec![SessionTab::Browse { id: 0, object: table("public", "users") }];
    let restored = strip.restore_session(&tabs, None, true);
    assert_eq!(
        restored,
        SessionRestored { selected: SessionTabId::Query(0), added_query_tab: Some(0), load_selected: false }
    );
    assert_eq!(strip.query_tabs, vec![0]);
    assert!(!strip.browse_tabs[0].loaded);

    let mut strip = TabStrip::new();
    let restored = strip.restore_session(&Vec::new(), Some(SessionTabId::Query(4)), false);
    assert_eq!(restored.added_query_tab, Some(0));
    assert_eq!(strip.query_tabs, vec![0]);
    assert_eq!(strip.tab_count(), 1);
}
