use codd::actions::{
    CascadeDropRecovery, ObjectActionRequest, RequestRefusal, StructureActionRequest,
    StructureActionScope, TruncateOptions, allows_cascade, cascade_target, drop_body,
    normalize_new_object_name, normalize_object_action_request,
    normalize_structure_action_request, object_action_body, object_action_failure_message,
    object_action_heading_msgid, object_action_success_message, structure_action_error_body,
    structure_action_success_message, structure_failure_msgid, structure_kind_msgid,
};
use codd::connection::{
    ConnectionDialogAction, ConnectionDialogAnswer, ConnectionDialogError, ConnectionDialogMsg,
    ConnectionDialog, ConnectionForm, CredentialState, SavedPasswordState, SshAuthMethod,
    SshHostKeyAction, ssh_auth_method_from_index, ssh_auth_method_index,
};
use codd::grid::{CellEditorSetup, cell_boolean_selection, cell_editor_setup, truncated};
use codd::insert_row::{
    InsertColumnInput, InsertMode, column_subtitle, initial_mode_index, insert_mode_at,
    insert_values, insert_values_are_valid, mode_choices, readonly_reason, value_placeholder,
};
use codd::models::{
    ColumnTypeGroup, DatabaseObject, DatabaseObjectKind, ObjectAction, QueryExecutionResult,
    QueryResult, SortDirection, StructureActionKind, StructureActionTarget, StructureDropMode,
    TableCell, TableColumn, TableColumnIdentity, TableIndex, TableInsertValue, TablePage,
    TableSort, TableStructureColumn,
};
use codd::queries::{QueryRuns, RunDecision};
use codd::results::{
    QueryResults, QueryResultsMsg, display_cell_value, plural_count, plural_count_u64,
    query_result_reached_row_limit,
};
use codd::sidebar::{
    filtered_databases, filtered_objects, has_search_results, object_copy_label, object_key,
    schema_row_expanded,
};
use codd::sql_scanner::{current_statement_sql, is_completion_trigger};
use codd::structure::{
    deferrable_summary, default_label, escaped_markup, index_summary, section_title,
};
use codd::table_browser::{
    BrowserAction, TableBrowserMsg, CellEditProblem, DeleteRowResult, InsertRowResult,
    TableBrowser, csv_filename_for_object, delimiter_from_index, editable_cell_problem,
    is_missing_relation, last_page_offset, next_sort_for_header_click, sanitize_filename_part,
    selected_page_size_index, table_load_error_message, type_group_class, validate_editable_cell,
};
use codd::text::{
    contains_text, decimal_string, join, parse_unsigned, replace_all, to_ascii_lowercase, trim,
};
use codd::workspace::{
    WorkspaceNavigation, databases_with_active_database, history_list_preview,
    matches_active_database, query_tab_title, strip_prefix, tab_id_from_widget_name,
};
use codd::models::CsvDelimiter;
use codd::models::{
    DEFAULT_QUERY_RESULT_ROW_LIMIT, MAX_QUERY_RESULT_ROW_LIMIT, MIN_QUERY_RESULT_ROW_LIMIT,
};

fn column(name: &str) -> TableColumn {
    TableColumn {
        name: name.to_string(),
        display_type: "text".to_string(),
        sql_type_name: "text".to_string(),
        enum_values: Vec::new(),
        type_group: ColumnTypeGroup::Text,
        is_array: false,
        is_range: false,
        is_nullable: true,
        is_primary_key: false,
        has_default: false,
        is_identity: false,
        is_generated: false,
        ordinal_position: 1,
    }
}

fn users() -> DatabaseObject {
    DatabaseObject {
        schema: "public".to_string(),
        name: "users".to_string(),
        kind: DatabaseObjectKind::Table,
    }
}

fn page(offset: u32, rows: usize, has_next_page: bool) -> TablePage {
    let mut id = column("id");
    id.is_primary_key = true;
    TablePage {
        object: users(),
        columns: vec![id, column("name")],
        rows: (0..rows)
            .map(|i| vec![TableCell::new(i.to_string()), TableCell::new("x".to_string())])
            .collect(),
        offset,
        has_next_page,
    }
}

// The SQL statement around the cursor.

#[test]
fn statement_ignores_block_comments_and_quoted_identifiers() {
    let sql = "select 1 /* ; */; select \"a;b\" from t; select 3";
    let cursor = sql.find("\"a").unwrap() as i32;
    assert_eq!(current_statement_sql(sql, cursor), " select \"a;b\" from t");
}

#[test]
fn statement_cursor_outside_text_is_clamped() {
    let sql = "select 1; select 2";
    assert_eq!(current_statement_sql(sql, -5), "select 1");
    assert_eq!(current_statement_sql(sql, 1000), " select 2");
}

#[test]
fn statement_without_semicolon_is_whole_text() {
    let sql = "select a,\n b from t";
    assert_eq!(current_statement_sql(sql, 3), sql);
}

#[test]
fn statement_line_comment_ends_at_newline() {
    let sql = "select 1 -- note\n; select 2";
    assert_eq!(current_statement_sql(sql, 2), "select 1 -- note\n");
}

#[test]
fn completion_triggers() {
    assert!(is_completion_trigger('.'));
    assert!(is_completion_trigger('_'));
    assert!(is_completion_trigger('a'));
    assert!(is_completion_trigger('7'));
    assert!(!is_completion_trigger(' '));
    assert!(!is_completion_trigger(';'));
}

// Result summaries.

#[test]
fn plural_counts_saturate() {
    assert_eq!(plural_count(3), 3);
    assert_eq!(plural_count_u64(u64::MAX), u32::MAX);
}

#[test]
fn long_cell_values_are_shortened_but_headers_are_not() {
    let long = "x".repeat(90);
    assert_eq!(display_cell_value(&long, false), format!("{}...", "x".repeat(80)));
    assert_eq!(display_cell_value(&long, true), long);
    assert_eq!(display_cell_value("short", false), "short");
}

#[test]
fn results_pane_follows_query_outcomes() {
    let mut pane = QueryResults::new(DEFAULT_QUERY_RESULT_ROW_LIMIT);
    assert_eq!(pane.update(QueryResultsMsg::RowLimitChanged(0)), Some(MIN_QUERY_RESULT_ROW_LIMIT));
    assert_eq!(pane.row_limit, MIN_QUERY_RESULT_ROW_LIMIT);
    assert_eq!(
        pane.update(QueryResultsMsg::RowLimitChanged(usize::MAX)),
        Some(MAX_QUERY_RESULT_ROW_LIMIT)
    );
    assert_eq!(pane.update(QueryResultsMsg::RowLimitChanged(250)), Some(250));
    pane.update(QueryResultsMsg::Loading);
    assert_eq!(pane.row_limit, 250);
    assert!(pane.is_loading);
    assert_eq!(pane.status_icon_name(), "view-refresh-symbolic");
    pane.update(QueryResultsMsg::ShowResult(QueryExecutionResult::AffectedRows(3)));
    assert!(!pane.is_loading);
    assert_eq!(pane.status_title, "3 rows affected");
    pane.update(QueryResultsMsg::ShowError("boom".to_string()));
    assert!(pane.is_error);
    assert_eq!(pane.status_description.as_deref(), Some("boom"));
    assert_eq!(pane.status_icon_name(), "dialog-error-symbolic");
    let rows = QueryResult {
        columns: vec!["id".to_string()],
        rows: vec![vec!["1".to_string()]],
        row_limit: None,
        row_limit_reached: false,
    };
    pane.update(QueryResultsMsg::ShowResult(QueryExecutionResult::Rows(rows)));
    assert!(pane.shows_grid());
    assert_eq!(pane.status_text, "1 row");
    pane.update(QueryResultsMsg::Cancelled);
    assert!(!pane.shows_grid());
    assert_eq!(pane.status_text, "");
}

#[test]
fn row_limit_detection() {
    let rows = QueryResult {
        columns: vec![],
        rows: vec![],
        row_limit: Some(1),
        row_limit_reached: true,
    };
    assert!(query_result_reached_row_limit(&QueryExecutionResult::Rows(rows)));
    assert!(!query_result_reached_row_limit(&QueryExecutionResult::AffectedRows(1)));
}

// The table browser's paging and requests.

fn opened() -> (TableBrowser, u64) {
    let mut state = TableBrowser::new(100);
    state.connected = true;
    match state.update(TableBrowserMsg::Open(users())) {
        BrowserAction::LoadPage { id, offset, page_size } => {
            assert_eq!((offset, page_size), (0, 100));
            (state, id)
        }
        other => panic!("unexpected {other:?}"),
    }
}

#[test]
fn stale_page_answers_are_ignored() {
    let (mut state, first) = opened();
    let second = match state.update(TableBrowserMsg::Refresh) {
        BrowserAction::LoadPage { id, .. } => id,
        other => panic!("unexpected {other:?}"),
    };
    assert_ne!(first, second);
    assert!(matches!(
        state.update(TableBrowserMsg::PageLoaded { id: first, result: Ok(page(0, 2, true)) }),
        BrowserAction::Nothing
    ));
    assert!(state.is_loading);
    assert!(matches!(
        state.update(TableBrowserMsg::PageLoaded { id: second, result: Ok(page(0, 2, true)) }),
        BrowserAction::Render
    ));
    assert!(!state.is_loading);
    assert_eq!(state.footer_text(), "1-2 rows");
    assert!(matches!(
        state.update(TableBrowserMsg::PageLoaded { id: second, result: Ok(page(0, 2, true)) }),
        BrowserAction::Nothing
    ));
}

#[test]
fn paging_moves_by_page_size_and_never_below_zero() {
    let (mut state, id) = opened();
    state.update(TableBrowserMsg::PageLoaded { id, result: Ok(page(0, 100, true)) });
    assert!(state.can_go_next());
    assert!(!state.can_go_previous());
    match state.update(TableBrowserMsg::NextPage) {
        BrowserAction::LoadPage { offset, .. } => assert_eq!(offset, 100),
        other => panic!("unexpected {other:?}"),
    }
    state.is_loading = false;
    state.active_request_id = None;
    match state.update(TableBrowserMsg::PreviousPage) {
        BrowserAction::LoadPage { offset, .. } => assert_eq!(offset, 0),
        other => panic!("unexpected {other:?}"),
    }
    match state.update(TableBrowserMsg::PreviousPage) {
        BrowserAction::LoadPage { offset, .. } => assert_eq!(offset, 0),
        other => panic!("unexpected {other:?}"),
    }
}

#[test]
fn last_page_request_then_load() {
    let (mut state, id) = opened();
    state.update(TableBrowserMsg::PageLoaded { id, result: Ok(page(0, 100, true)) });
    let count_id = match state.update(TableBrowserMsg::LastPage) {
        BrowserAction::LoadLastPageOffset { id, page_size } => {
            assert_eq!(page_size, 100);
            id
        }
        other => panic!("unexpected {other:?}"),
    };
    assert!(state.is_loading);
    match state.update(TableBrowserMsg::LastPageOffsetLoaded { id: count_id, result: Ok(200) }) {
        BrowserAction::LoadPage { offset, .. } => assert_eq!(offset, 200),
        other => panic!("unexpected {other:?}"),
    }
}

#[test]
fn last_page_failure_is_reported() {
    let (mut state, id) = opened();
    state.update(TableBrowserMsg::PageLoaded { id, result: Ok(page(0, 100, true)) });
    let count_id = match state.update(TableBrowserMsg::LastPage) {
        BrowserAction::LoadLastPageOffset { id, .. } => id,
        other => panic!("unexpected {other:?}"),
    };
    match state.update(TableBrowserMsg::LastPageOffsetLoaded {
        id: count_id,
        result: Err("timeout".to_string()),
    }) {
        BrowserAction::Warn { heading, detail } => {
            assert_eq!(heading, "Loading last page failed");
            assert_eq!(detail, "timeout");
        }
        other => panic!("unexpected {other:?}"),
    }
    assert!(!state.is_loading);
}

#[test]
fn page_errors_mark_the_browser() {
    let (mut state, id) = opened();
    state.update(TableBrowserMsg::PageLoaded { id, result: Err("gone".to_string()) });
    assert!(state.is_error);
    assert!(state.page.is_none());
    assert_eq!(state.status_icon_name(), "table-symbolic".replace("table", "dialog-error"));
}

#[test]
fn sorting_cycles_and_drops_unknown_columns() {
    let (mut state, id) = opened();
    state.update(TableBrowserMsg::PageLoaded { id, result: Ok(page(0, 1, false)) });
    let sort = TableSort::new("name".to_string(), SortDirection::Descending);
    let next = match state.update(TableBrowserMsg::SortChanged(sort)) {
        BrowserAction::LoadPage { id, offset, .. } => {
            assert_eq!(offset, 0);
            id
        }
        other => panic!("unexpected {other:?}"),
    };
    assert!(state.sort.is_some());
    let mut other_page = page(0, 1, false);
    other_page.columns = vec![column("id")];
    state.update(TableBrowserMsg::PageLoaded { id: next, result: Ok(other_page) });
    assert!(state.sort.is_none());
}

#[test]
fn third_header_click_removes_sort() {
    let current = TableSort::new("name".to_string(), SortDirection::Descending);
    let clicked = TableSort::new("name".to_string(), SortDirection::Ascending);
    assert!(next_sort_for_header_click(Some(&current), clicked).is_none());
    let clicked = TableSort::new("id".to_string(), SortDirection::Ascending);
    assert!(next_sort_for_header_click(Some(&current), clicked).is_some());
}

#[test]
fn page_size_and_filters_restart_at_first_row() {
    let (mut state, _) = opened();
    state.offset = 300;
    match state.update(TableBrowserMsg::PageSizeChanged(50)) {
        BrowserAction::LoadPage { offset, page_size, .. } => assert_eq!((offset, page_size), (0, 50)),
        other => panic!("unexpected {other:?}"),
    }
    assert!(matches!(state.update(TableBrowserMsg::PageSizeChanged(50)), BrowserAction::Nothing));
    state.offset = 300;
    state.update(TableBrowserMsg::FiltersApplied(2));
    assert_eq!(state.offset, 0);
    assert!(state.filters_expanded);
    assert_eq!(state.filter_button_label(), "Filters (2)");
    state.update(TableBrowserMsg::FiltersCleared);
    assert_eq!(state.filter_button_label(), "Filters");
}

#[test]
fn inserts_and_deletes_take_only_their_answers() {
    let (mut state, id) = opened();
    state.update(TableBrowserMsg::PageLoaded { id, result: Ok(page(40, 3, false)) });
    let insert = match state.update(TableBrowserMsg::InsertRowConfirmed) {
        BrowserAction::RunInsert { id } => id,
        other => panic!("unexpected {other:?}"),
    };
    match state.update(TableBrowserMsg::RowInserted {
        id: insert,
        result: InsertRowResult::InsertFailed("duplicate key".to_string()),
    }) {
        BrowserAction::Warn { heading, detail } => {
            assert_eq!(heading, "Inserting row failed");
            assert_eq!(detail, "duplicate key");
        }
        other => panic!("unexpected {other:?}"),
    }
    let generation = state.page_generation;
    assert!(matches!(
        state.update(TableBrowserMsg::DeleteRowConfirmed { page_generation: generation + 1, row_index: 0 }),
        BrowserAction::Nothing
    ));
    assert!(matches!(
        state.update(TableBrowserMsg::DeleteRowConfirmed { page_generation: generation, row_index: 9 }),
        BrowserAction::Nothing
    ));
    let delete = match state.update(TableBrowserMsg::DeleteRowConfirmed {
        page_generation: generation,
        row_index: 1,
    }) {
        BrowserAction::RunDelete { id, row_index } => {
            assert_eq!(row_index, 1);
            id
        }
        other => panic!("unexpected {other:?}"),
    };
    assert!(matches!(
        state.update(TableBrowserMsg::RowDeleted { id: delete, result: DeleteRowResult::Deleted(page(20, 2, false)) }),
        BrowserAction::RenderWithNotice("Row deleted.")
    ));
    assert_eq!(state.offset, 20);
    assert_ne!(state.page_generation, generation);
}

#[test]
fn cell_updates_only_apply_to_their_page() {
    let (mut state, id) = opened();
    state.update(TableBrowserMsg::PageLoaded { id, result: Ok(page(0, 2, false)) });
    let generation = state.page_generation;
    assert_eq!(
        state.handle_cell_updated(generation + 1, 0, 1, Ok(TableCell::new("new".to_string()))),
        Ok(())
    );
    assert_eq!(state.page.as_ref().unwrap().rows[0][1].value, "x");
    assert_eq!(
        state.handle_cell_updated(generation, 0, 1, Ok(TableCell::new("new".to_string()))),
        Ok(())
    );
    assert_eq!(state.page.as_ref().unwrap().rows[0][1].value, "new");
    assert_eq!(
        state.handle_cell_updated(generation, 0, 1, Err("denied".to_string())),
        Err("denied".to_string())
    );
}

#[test]
fn browser_header_texts() {
    let (mut state, id) = opened();
    assert_eq!(state.object_title(), "users");
    assert_eq!(state.object_context(), "public · Table");
    assert_eq!(state.footer_text(), "Loading...");
    state.update(TableBrowserMsg::PageLoaded { id, result: Ok(page(0, 0, false)) });
    assert_eq!(state.footer_text(), "No rows");
    assert!(state.can_delete_rows());
}

#[test]
fn editing_rules() {
    let mut id = column("id");
    id.is_primary_key = true;
    let mut blob = column("blob");
    blob.type_group = ColumnTypeGroup::Binary;
    let columns = vec![id, column("name"), blob];
    let mut view = users();
    assert_eq!(editable_cell_problem(&view, &columns, 1), None);
    assert_eq!(editable_cell_problem(&view, &columns, 0), Some(CellEditProblem::PrimaryKey));
    assert_eq!(editable_cell_problem(&view, &columns, 2), Some(CellEditProblem::UnsupportedType));
    assert_eq!(editable_cell_problem(&view, &columns, 3), Some(CellEditProblem::CellGone));
    assert_eq!(
        editable_cell_problem(&view, &[column("name")], 0),
        Some(CellEditProblem::NoPrimaryKey)
    );
    view.kind = DatabaseObjectKind::View;
    assert_eq!(
        validate_editable_cell(&view, &columns, 1),
        Err("Only tables can be edited.".to_string())
    );
}

#[test]
fn missing_relations_get_a_clear_message() {
    assert!(is_missing_relation(Some("42P01")));
    assert!(is_missing_relation(Some("3F000")));
    assert!(!is_missing_relation(Some("23505")));
    assert!(!is_missing_relation(None));
    assert_eq!(
        table_load_error_message(&users(), Some("42P01"), "relation does not exist"),
        "The table public.users could not be found. It may have been renamed or dropped."
    );
    assert_eq!(table_load_error_message(&users(), None, "boom"), "boom");
}

#[test]
fn export_file_names_are_safe() {
    assert_eq!(sanitize_filename_part("a/b:c*?"), "a_b_c__");
    assert_eq!(sanitize_filename_part(""), "_");
    let object = DatabaseObject {
        schema: "sales|2024".to_string(),
        name: "<orders>".to_string(),
        kind: DatabaseObjectKind::View,
    };
    assert_eq!(csv_filename_for_object(&object), "sales_2024._orders_.csv");
}

#[test]
fn small_choices() {
    assert_eq!(delimiter_from_index(1), CsvDelimiter::Semicolon);
    assert_eq!(delimiter_from_index(2), CsvDelimiter::Tab);
    assert_eq!(delimiter_from_index(7), CsvDelimiter::Comma);
    assert_eq!(selected_page_size_index(&[50, 100, 500], 500), 2);
    assert_eq!(selected_page_size_index(&[50, 100, 500], 42), 1);
    assert_eq!(type_group_class(ColumnTypeGroup::Json), Some("cell-type-json"));
    assert_eq!(type_group_class(ColumnTypeGroup::Other), None);
    assert_eq!(last_page_offset(i64::MAX, 1), u32::MAX);
    assert_eq!(last_page_offset(10, 0), 0);
}

// Insert dialog.

#[test]
fn insert_modes_follow_the_column() {
    let mut c = column("c");
    c.is_nullable = false;
    assert_eq!(mode_choices(&c), vec![InsertMode::Value]);
    c.is_nullable = true;
    c.has_default = true;
    assert_eq!(
        mode_choices(&c),
        vec![InsertMode::Value, InsertMode::Null, InsertMode::Default]
    );
    assert_eq!(initial_mode_index(&c, None), 2);
    assert_eq!(initial_mode_index(&c, Some(&TableInsertValue::Null)), 1);
    c.has_default = false;
    assert_eq!(initial_mode_index(&c, None), 1);
    assert_eq!(initial_mode_index(&c, Some(&TableInsertValue::Default)), 1);
    assert_eq!(insert_mode_at(&mode_choices(&c), 1), InsertMode::Null);
    assert_eq!(insert_mode_at(&mode_choices(&c), 5), InsertMode::Value);
}

#[test]
fn insert_values_default_unlisted_columns() {
    let columns = vec![column("a"), column("b"), column("c")];
    let inputs = vec![
        InsertColumnInput { column_index: 0, mode: InsertMode::Value, value: "x".to_string() },
        InsertColumnInput { column_index: 2, mode: InsertMode::Null, value: String::new() },
    ];
    assert!(insert_values_are_valid(&columns, &inputs));
    assert_eq!(
        insert_values(&columns, &inputs),
        vec![
            TableInsertValue::Value("x".to_string()),
            TableInsertValue::Default,
            TableInsertValue::Null
        ]
    );
    let bad = vec![InsertColumnInput { column_index: 3, mode: InsertMode::Value, value: String::new() }];
    assert!(!insert_values_are_valid(&columns, &bad));
    let mut required_binary = column("blob");
    required_binary.type_group = ColumnTypeGroup::Binary;
    required_binary.is_nullable = false;
    assert!(!insert_values_are_valid(&[required_binary], &[]));
}

#[test]
fn insert_column_texts() {
    let mut c = column("c");
    c.is_nullable = false;
    assert_eq!(column_subtitle(&c), "text · Required");
    assert_eq!(value_placeholder(&c), "Required value");
    c.is_generated = true;
    assert_eq!(readonly_reason(&c), "Generated column");
    c.is_generated = false;
    c.has_default = true;
    assert_eq!(column_subtitle(&c), "text · Default allowed");
    c.is_nullable = true;
    assert_eq!(column_subtitle(&c), "text · Default or NULL allowed");
    assert_eq!(value_placeholder(&c), "Value");
    c.type_group = ColumnTypeGroup::Binary;
    assert_eq!(readonly_reason(&c), "Unsupported column type");
}

// Structure view.

#[test]
fn structure_texts() {
    let index = TableIndex {
        name: "users_pkey".to_string(),
        method: "btree".to_string(),
        is_primary: true,
        is_unique: true,
        is_valid: false,
        predicate: Some("id > 0".to_string()),
    };
    assert_eq!(index_summary(&index), "btree · Primary · Invalid · Partial");
    assert_eq!(deferrable_summary(true, true), "Deferred");
    assert_eq!(deferrable_summary(true, false), "Deferrable");
    assert_eq!(deferrable_summary(false, true), "");
    assert_eq!(section_title("Indexes", 12), "Indexes (12)");
    let column = TableStructureColumn {
        name: "id".to_string(),
        data_type: "bigint".to_string(),
        sql_type_name: "int8".to_string(),
        is_nullable: false,
        default_expression: Some("42".to_string()),
        is_primary_key: false,
        identity: Some(TableColumnIdentity::ByDefault),
        generated: None,
    };
    assert_eq!(default_label(&column), "Identity (By Default)");
    let plain = TableStructureColumn { identity: None, ..column.clone() };
    assert_eq!(default_label(&plain), "42");
    let generated = TableStructureColumn { generated: Some("a + b".to_string()), ..plain };
    assert_eq!(default_label(&generated), "Generated");
}

#[test]
fn markup_escapes_quotes_ampersands_and_controls() {
    assert_eq!(escaped_markup("a & \"b\""), "a &amp; &quot;b&quot;");
    assert_eq!(escaped_markup("x\u{1}y\u{1b}z\u{85}\u{9f}"), "x&#x1;y&#x1b;z\u{85}&#x9f;");
    assert_eq!(escaped_markup("tab\tnew\nline"), "tab\tnew\nline");
}

// Object and structure actions.

fn target(editable: bool) -> StructureActionTarget {
    StructureActionTarget {
        table: users(),
        kind: StructureActionKind::Index,
        name: "users_name_idx".to_string(),
        editable,
    }
}

fn scope() -> StructureActionScope {
    StructureActionScope { connection_id: "c1".to_string(), database: "app".to_string() }
}

#[test]
fn new_names_are_trimmed_and_checked() {
    assert_eq!(normalize_new_object_name("  orders \n").as_deref(), Some("orders"));
    assert_eq!(normalize_new_object_name(" \t "), None);
    let rename = StructureActionRequest::Rename {
        scope: scope(),
        target: target(true),
        new_name: " users_name_idx ".to_string(),
    };
    assert_eq!(normalize_structure_action_request(rename).err(), Some(RequestRefusal::Unchanged));
    let rename = StructureActionRequest::Rename {
        scope: scope(),
        target: target(true),
        new_name: "  ".to_string(),
    };
    assert_eq!(normalize_structure_action_request(rename).err(), Some(RequestRefusal::InvalidName));
    let rename = StructureActionRequest::Rename {
        scope: scope(),
        target: target(false),
        new_name: "x".to_string(),
    };
    assert_eq!(normalize_structure_action_request(rename).err(), Some(RequestRefusal::NotEditable));
    let rename = StructureActionRequest::Rename {
        scope: scope(),
        target: target(true),
        new_name: " idx2 ".to_string(),
    };
    match normalize_structure_action_request(rename) {
        Ok(StructureActionRequest::Rename { new_name, .. }) => assert_eq!(new_name, "idx2"),
        other => panic!("unexpected {other:?}"),
    }
    let request = ObjectActionRequest::Rename { object: users(), new_name: " people ".to_string() };
    match normalize_object_action_request(request) {
        Ok(ObjectActionRequest::Rename { new_name, .. }) => assert_eq!(new_name, "people"),
        other => panic!("unexpected {other:?}"),
    }
    let request = ObjectActionRequest::Truncate {
        object: users(),
        options: TruncateOptions { restart_identity: true, cascade: false },
    };
    assert!(normalize_object_action_request(request).is_ok());
}

#[test]
fn cascade_is_offered_only_for_restricted_drops_with_dependents() {
    assert!(allows_cascade(Some("2BP01")));
    assert!(!allows_cascade(Some("42501")));
    let drop = StructureActionRequest::Drop {
        scope: scope(),
        target: target(true),
        mode: StructureDropMode::Restrict,
    };
    let recovery: Option<CascadeDropRecovery> = cascade_target(&drop, true);
    assert_eq!(recovery.map(|r| r.target.name), Some("users_name_idx".to_string()));
    assert!(cascade_target(&drop, false).is_none());
    let cascade = StructureActionRequest::Drop {
        scope: scope(),
        target: target(true),
        mode: StructureDropMode::Cascade,
    };
    assert!(cascade_target(&cascade, true).is_none());
    assert_eq!(structure_failure_msgid(&cascade), "Dropping with CASCADE failed");
    assert_eq!(structure_action_success_message(&cascade), "Index dropped with CASCADE.");
    assert_eq!(structure_action_error_body("err", None), "err");
    let recovery = cascade_target(&drop, true).unwrap();
    assert!(structure_action_error_body("err", Some(&recovery)).starts_with("err\n\nThis may also drop"));
}

#[test]
fn action_texts() {
    assert_eq!(structure_kind_msgid(StructureActionKind::ForeignKey), "Foreign key");
    assert_eq!(drop_body(&target(true)), "Drop Index users_name_idx from table?\npublic.users");
    assert_eq!(object_action_heading_msgid(ObjectAction::Delete, DatabaseObjectKind::View), "Delete View");
    assert_eq!(
        object_action_body(ObjectAction::Truncate, &users()),
        "Remove all rows from public.users?\nThis cannot be undone."
    );
    assert_eq!(object_action_body(ObjectAction::Rename, &users()), "");
    assert_eq!(
        object_action_success_message(ObjectAction::Truncate, &users()),
        "Table truncated: public.users"
    );
    assert_eq!(
        object_action_failure_message(ObjectAction::Delete, "permission denied"),
        "Deleting failed: permission denied"
    );
}

// Workspace.

#[test]
fn query_tab_titles() {
    assert_eq!(query_tab_title("  select *\n  from   users where id = 1"), "select * from users");
    assert_eq!(query_tab_title("   \n  "), "Query");
    assert_eq!(
        query_tab_title("select averyveryverylongcolumnname, b"),
        "select averyveryverylongcolu..."
    );
}

#[test]
fn history_previews() {
    assert_eq!(history_list_preview("\n  select 1;  \r\n\n  select 2;\nselect 3;"), "select 1;\nselect 2;");
    assert_eq!(history_list_preview(&"y".repeat(130)), format!("{}...", "y".repeat(120)));
    assert_eq!(history_list_preview(""), "");
}

#[test]
fn tab_ids_from_widget_names() {
    assert_eq!(tab_id_from_widget_name(Some("query-tab-42"), "query-tab-"), Some(42));
    assert_eq!(tab_id_from_widget_name(Some("query-tab-+7"), "query-tab-"), Some(7));
    assert_eq!(tab_id_from_widget_name(Some("browse-tab-42"), "query-tab-"), None);
    assert_eq!(tab_id_from_widget_name(Some("query-tab-"), "query-tab-"), None);
    assert_eq!(tab_id_from_widget_name(Some("query-tab-18446744073709551616"), "query-tab-"), None);
    assert_eq!(tab_id_from_widget_name(None, "query-tab-"), None);
    assert_eq!(strip_prefix("abc", "ab").as_deref(), Some("c"));
}

#[test]
fn database_lists_and_scopes() {
    let active = "reports".to_string();
    assert_eq!(
        databases_with_active_database(Some(&active), vec!["app".to_string()]),
        vec!["reports".to_string(), "app".to_string()]
    );
    assert_eq!(
        databases_with_active_database(Some(&active), vec!["reports".to_string()]),
        vec!["reports".to_string()]
    );
    let id = "c1".to_string();
    assert!(matches_active_database(Some(&id), Some(&active), "c1", "reports"));
    assert!(!matches_active_database(Some(&id), None, "c1", "reports"));
    assert_eq!(
        WorkspaceNavigation::from_sidebar_visibility(false).sidebar_toggle_tooltip(),
        "Show Objects"
    );
}

// Connection dialog.

fn form() -> ConnectionForm {
    ConnectionForm {
        id: None,
        name: "Local".to_string(),
        host: "localhost".to_string(),
        port: " 5432 ".to_string(),
        database: "app".to_string(),
        username: "me".to_string(),
        password: String::new(),
        save_password: false,
        ssh_enabled: false,
        ssh_host: String::new(),
        ssh_port: "22".to_string(),
        ssh_username: String::new(),
        ssh_auth_method: SshAuthMethod::Password,
        ssh_password: String::new(),
        ssh_private_key_path: String::new(),
        ssh_key_passphrase: String::new(),
        ssh_save_secret: false,
        ssh_host_key_fingerprint: None,
    }
}

#[test]
fn connection_forms_need_their_fields() {
    let mut f = form();
    assert!(f.can_submit());
    f.port = "70000".to_string();
    assert!(!f.can_submit());
    f.port = "5432".to_string();
    f.ssh_enabled = true;
    assert!(!f.can_submit());
    f.ssh_host = "bastion".to_string();
    f.ssh_username = "me".to_string();
    assert!(f.can_submit());
    f.ssh_auth_method = SshAuthMethod::PrivateKey;
    assert!(!f.can_submit());
    f.ssh_private_key_path = "/home/me/.ssh/id".to_string();
    assert!(f.can_submit());
}

#[test]
fn connection_dialog_reacts_to_edits_and_answers() {
    let mut dialog = ConnectionDialog::new(form(), true);
    dialog.update(ConnectionDialogMsg::SavePasswordChanged(true));
    assert!(!dialog.form.save_password);
    dialog.take_answer(ConnectionDialogAnswer::CredentialChecked(Ok(())));
    dialog.update(ConnectionDialogMsg::SavePasswordChanged(true));
    assert!(dialog.form.save_password);
    assert!(matches!(
        dialog.update(ConnectionDialogMsg::TrustSshHostKeyAndTest("SHA256:x".to_string())),
        ConnectionDialogAction::TestConnection
    ));
    dialog.start_request("id-1".to_string());
    assert!(!dialog.can_send());
    match dialog.take_answer(ConnectionDialogAnswer::TestFinished(Ok(()))) {
        ConnectionDialogAction::TestSucceeded { save_trusted_host_key } => assert!(save_trusted_host_key),
        other => panic!("unexpected {other:?}"),
    }
    assert_eq!(dialog.form.id.as_deref(), Some("id-1"));
    dialog.update(ConnectionDialogMsg::SshHostChanged("other".to_string()));
    assert!(dialog.form.ssh_host_key_fingerprint.is_none());
    match dialog.take_answer(ConnectionDialogAnswer::ConnectFinished(Err(
        ConnectionDialogError::UntrustedSshHostKey("fp".to_string()),
    ))) {
        ConnectionDialogAction::AskTrustHostKey { fingerprint, action } => {
            assert_eq!(fingerprint, "fp");
            assert_eq!(action, SshHostKeyAction::Connect);
        }
        other => panic!("unexpected {other:?}"),
    }
    dialog.take_answer(ConnectionDialogAnswer::SavedPasswordChecked(Ok(false)));
    assert_eq!(dialog.saved_password_state, SavedPasswordState::Missing);
    dialog.take_answer(ConnectionDialogAnswer::CredentialChecked(Err("no keyring".to_string())));
    assert!(matches!(dialog.credential_state, CredentialState::Unavailable(_)));
    assert!(!dialog.form.save_password);
    assert_eq!(
        ConnectionDialogError::UntrustedSshHostKey("fp".to_string()).text(),
        "SSH host key is not trusted yet. Fingerprint: fp"
    );
    assert_eq!(ssh_auth_method_from_index(ssh_auth_method_index(SshAuthMethod::Agent)), SshAuthMethod::Agent);
}

// Query runs.

#[test]
fn query_runs_take_only_the_current_answer() {
    let mut runs = QueryRuns::new();
    runs.add_tab(7);
    assert_eq!(runs.start(9, true, "select 1"), RunDecision::UnknownTab);
    assert_eq!(runs.start(7, false, "select 1"), RunDecision::NotConnected);
    assert_eq!(runs.start(7, true, "  \n"), RunDecision::EmptySql);
    let id = match runs.start(7, true, "select 1") {
        RunDecision::Started(id) => id,
        other => panic!("unexpected {other:?}"),
    };
    assert_eq!(runs.start(7, true, "select 1"), RunDecision::AlreadyRunning);
    assert!(!runs.finish(7, id + 1));
    assert!(runs.finish(7, id));
    assert!(!runs.finish(7, id));
    let second = match runs.start(7, true, "select 2") {
        RunDecision::Started(id) => id,
        other => panic!("unexpected {other:?}"),
    };
    assert_ne!(second, id);
    assert_eq!(runs.cancel(7), Some(second));
    assert!(!runs.is_active_query(7, second));
    runs.add_tab(8);
    runs.start(8, true, "select 3");
    assert_eq!(runs.cancel_all(), vec![8]);
}

// Sidebar.

#[test]
fn sidebar_search_ignores_case_and_surrounding_space() {
    let objects = vec![
        users(),
        DatabaseObject { schema: "public".to_string(), name: "Orders".to_string(), kind: DatabaseObjectKind::Table },
    ];
    let found = filtered_objects(&objects, "  ORD ");
    assert_eq!(found.len(), 1);
    assert_eq!(found[0].name, "Orders");
    assert_eq!(filtered_objects(&objects, "   ").len(), 2);
    assert!(!has_search_results(&objects, "zzz"));
    let databases = vec!["App".to_string(), "reports".to_string()];
    assert_eq!(filtered_databases(&databases, "app"), vec!["App"]);
    assert_eq!(object_key(&users()), "table-symbolic\u{1f}public\u{1f}users");
    assert!(schema_row_expanded("public", false, false));
    assert!(!schema_row_expanded("sales", false, false));
    assert_eq!(object_copy_label(DatabaseObjectKind::View, true), "Copy Qualified View Name");
}

// Grid.

#[test]
fn grid_cells() {
    assert_eq!(truncated("abcdef", 3), "abc…");
    assert_eq!(truncated("abc", 3), "abc");
    assert_eq!(cell_boolean_selection("TRUE"), 1);
    assert_eq!(cell_boolean_selection("t"), 1);
    assert_eq!(cell_boolean_selection("yes"), 0);
    let mut status = column("status");
    status.enum_values = vec!["new".to_string(), "done".to_string()];
    match cell_editor_setup(&status, &TableCell::new("done".to_string())) {
        CellEditorSetup::Choice { values, selected } => {
            assert_eq!(values, vec!["new".to_string(), "done".to_string()]);
            assert_eq!(selected, 1);
        }
        other => panic!("unexpected {other:?}"),
    }
    match cell_editor_setup(&column("name"), &TableCell::null()) {
        CellEditorSetup::Text { initial } => assert_eq!(initial, ""),
        other => panic!("unexpected {other:?}"),
    }
    let mut flag = column("flag");
    flag.type_group = ColumnTypeGroup::Boolean;
    match cell_editor_setup(&flag, &TableCell::new("true".to_string())) {
        CellEditorSetup::Choice { values, selected } => {
            assert_eq!(values, vec!["FALSE".to_string(), "TRUE".to_string()]);
            assert_eq!(selected, 1);
        }
        other => panic!("unexpected {other:?}"),
    }
}

// Text helpers.

#[test]
fn text_helpers() {
    assert_eq!(replace_all("{a}-{a}", "{a}", "1"), "1-1");
    assert_eq!(replace_all("aaa", "aa", "b"), "ba");
    assert_eq!(join(&vec!["a".to_string(), "b".to_string(), "c".to_string()], ", "), "a, b, c");
    assert_eq!(join(&vec![], ", "), "");
    assert_eq!(trim("\u{3000} x y \u{a0}"), "x y");
    assert_eq!(parse_unsigned("65535", 65535), Some(65535));
    assert_eq!(parse_unsigned("65536", 65535), None);
    assert_eq!(parse_unsigned("-1", 65535), None);
    assert_eq!(parse_unsigned("+", 65535), None);
    assert_eq!(decimal_string(0), "0");
    assert_eq!(decimal_string(u64::MAX), u64::MAX.to_string());
    assert_eq!(to_ascii_lowercase("ÄbC"), "Äbc");
    assert!(contains_text("hello", ""));
    assert!(contains_text("hello", "llo"));
    assert!(!contains_text("hello", "lol"));
}
