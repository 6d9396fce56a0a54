use codd::insert_row::{
    InsertMode, InsertRowKind, InsertRowRequest, boolean_selection, can_duplicate_row,
    duplicate_values, insert_mode_for_value, insert_request_matches, insert_value_text,
};
use codd::models::{
    ColumnTypeGroup, DatabaseObject, DatabaseObjectKind, QueryResult, TableCell, TableColumn,
    TableColumnIdentity, TableInsertValue, TableStructureColumn,
};
use codd::results::result_status_text;
use codd::sql_scanner::current_statement_sql;
use codd::structure::{default_label, escaped_markup, key_label};
use codd::table_browser::last_page_offset;

#[test]
fn current_statement_uses_statement_around_cursor() {
    let sql = "select * from users;\nselect c.\nfrom customers c;";
    let cursor = sql.find("c.").unwrap() + 2;

    assert_eq!(
        current_statement_sql(sql, cursor as i32).trim(),
        "select c.\nfrom customers c"
    );
}

#[test]
fn current_statement_ignores_semicolons_inside_strings_and_comments() {
    let sql = "select ';', ''';';\nselect c.\n-- ;\nfrom customers c;";
    let cursor = sql.find("c.").unwrap() + 2;

    assert_eq!(
        current_statement_sql(sql, cursor as i32).trim(),
        "select c.\n-- ;\nfrom customers c"
    );
}

#[test]
fn result_status_keeps_row_count_when_row_limit_was_reached() {
    let result = QueryResult {
        columns: vec!["id".to_string()],
        rows: vec![vec!["1".to_string()], vec!["2".to_string()]],
        row_limit: Some(2),
        row_limit_reached: true,
    };

    assert_eq!(result_status_text(&result), "2+ rows");
}

#[test]
fn result_status_does_not_mark_unlimited_results() {
    let result = QueryResult {
        columns: vec!["id".to_string()],
        rows: vec![vec!["1".to_string()]],
        row_limit: None,
        row_limit_reached: false,
    };

    assert_eq!(result_status_text(&result), "1 row");
}

#[test]
fn last_page_offset_handles_empty_pages() {
    assert_eq!(last_page_offset(0, 100), 0);
    assert_eq!(last_page_offset(-1, 100), 0);
}

#[test]
fn last_page_offset_points_to_first_row_of_last_page() {
    assert_eq!(last_page_offset(1, 100), 0);
    assert_eq!(last_page_offset(100, 100), 0);
    assert_eq!(last_page_offset(101, 100), 100);
    assert_eq!(last_page_offset(250, 100), 200);
}

#[test]
fn restores_insert_modes_from_saved_values() {
    assert_eq!(
        insert_mode_for_value(&TableInsertValue::Default),
        InsertMode::Default
    );
    assert_eq!(
        insert_mode_for_value(&TableInsertValue::Null),
        InsertMode::Null
    );
    assert_eq!(
        insert_mode_for_value(&TableInsertValue::Value("value".to_string())),
        InsertMode::Value
    );
}

#[test]
fn restores_text_values_from_saved_values() {
    assert_eq!(
        insert_value_text(Some(&TableInsertValue::Value("value".to_string()))),
        Some("value")
    );
    assert_eq!(insert_value_text(Some(&TableInsertValue::Default)), None);
    assert_eq!(insert_value_text(Some(&TableInsertValue::Null)), None);
}

#[test]
fn restores_boolean_selection_from_saved_values() {
    assert_eq!(
        boolean_selection(Some(&TableInsertValue::Value("true".to_string()))),
        1
    );
    assert_eq!(
        boolean_selection(Some(&TableInsertValue::Value("false".to_string()))),
        0
    );
    assert_eq!(boolean_selection(Some(&TableInsertValue::Null)), 0);
}

#[test]
fn rejects_insert_requests_for_changed_columns() {
    let object = DatabaseObject {
        schema: "public".to_string(),
        name: "users".to_string(),
        kind: DatabaseObjectKind::Table,
    };
    let column = TableColumn {
        name: "name".to_string(),
        display_type: "text".to_string(),
        sql_type_name: "text".to_string(),
        enum_values: Vec::new(),
        type_group: ColumnTypeGroup::Text,
        is_array: false,
        is_range: false,
        is_nullable: false,
        is_primary_key: false,
        has_default: false,
        is_identity: false,
        is_generated: false,
        ordinal_position: 1,
    };
    let request = InsertRowRequest {
        kind: InsertRowKind::Insert,
        object: object.clone(),
        columns: vec![column.clone()],
        values: vec![TableInsertValue::Value("Ada".to_string())],
    };

    assert!(insert_request_matches(
        Some(&object),
        std::slice::from_ref(&column),
        &request
    ));
    assert!(!insert_request_matches(Some(&object), &[], &request));
}

#[test]
fn duplicates_values_and_preserves_natural_primary_keys() {
    let columns = [
        test_column("id", true, false, false),
        test_column("name", false, false, false),
        test_column("note", false, false, false),
        test_column("generated", false, true, false),
        test_column("identity", true, false, true),
    ];
    let row = [
        TableCell::new("42".to_string()),
        TableCell::new("Ada".to_string()),
        TableCell::null(),
        TableCell::new("ignored".to_string()),
        TableCell::new("99".to_string()),
    ];

    assert_eq!(
        duplicate_values(&columns, &row),
        Some(vec![
            TableInsertValue::Value("42".to_string()),
            TableInsertValue::Value("Ada".to_string()),
            TableInsertValue::Null,
            TableInsertValue::Default,
            TableInsertValue::Default,
        ])
    );
}

#[test]
fn rejects_binary_values_and_mismatched_rows() {
    let mut binary_column = test_column("payload", false, false, false);
    binary_column.type_group = ColumnTypeGroup::Binary;
    binary_column.sql_type_name = "bytea".to_string();

    let null_row = [TableCell::null()];

    assert!(!can_duplicate_row(&[binary_column.clone()], &null_row));
    assert_eq!(duplicate_values(&[binary_column], &null_row), None);
    assert!(!can_duplicate_row(&[], &null_row));
}

#[test]
fn allows_default_backed_binary_primary_keys() {
    let mut column = test_column("id", true, false, false);
    column.type_group = ColumnTypeGroup::Binary;
    column.sql_type_name = "bytea".to_string();
    column.has_default = true;

    let row = [TableCell::new("ignored".to_string())];

    assert!(can_duplicate_row(std::slice::from_ref(&column), &row));
    assert_eq!(
        duplicate_values(&[column], &row),
        Some(vec![TableInsertValue::Default])
    );
}

#[test]
fn accepts_datetime_values() {
    for pg_type in ["date", "time", "timetz", "timestamp", "timestamptz"] {
        let mut column = test_column("starts_at", false, false, false);
        column.type_group = ColumnTypeGroup::DateTime;
        column.sql_type_name = pg_type.to_string();

        let row = [TableCell::new("12:00:00".to_string())];

        assert!(can_duplicate_row(&[column], &row));
    }
}

#[test]
fn accepts_money_values() {
    let mut column = test_column("amount", false, false, false);
    column.type_group = ColumnTypeGroup::Numeric;
    column.sql_type_name = "money".to_string();

    let row = [TableCell::new("1.234,56 €".to_string())];

    assert!(can_duplicate_row(&[column], &row));
}

#[test]
fn rejects_postgres_internal_char_values() {
    let mut column = test_column("internal", false, false, false);
    column.sql_type_name = "char".to_string();

    let row = [TableCell::new("\u{80}".to_string())];

    assert!(!can_duplicate_row(&[column], &row));
}

#[test]
fn accepts_array_and_range_values() {
    let mut array = test_column("dates", false, false, false);
    array.type_group = ColumnTypeGroup::Other;
    array.sql_type_name = "_date".to_string();
    array.display_type = "date[]".to_string();
    array.is_array = true;
    let mut range = test_column("period", false, false, false);
    range.type_group = ColumnTypeGroup::Other;
    range.sql_type_name = "daterange".to_string();
    range.is_range = true;
    let row = [
        TableCell::new("{2024-01-02,2024-02-03}".to_string()),
        TableCell::new("[2024-01-02,2024-02-03)".to_string()),
    ];

    assert!(can_duplicate_row(&[array.clone(), range.clone()], &row));
    assert_eq!(
        duplicate_values(&[array, range], &row),
        Some(vec![
            TableInsertValue::Value("{2024-01-02,2024-02-03}".to_string()),
            TableInsertValue::Value("[2024-01-02,2024-02-03)".to_string()),
        ])
    );
}

#[test]
fn default_label_prefers_identity() {
    let column = TableStructureColumn {
        name: "id".to_string(),
        data_type: "bigint".to_string(),
        sql_type_name: "int8".to_string(),
        is_nullable: false,
        default_expression: Some("nextval('example_id_seq'::regclass)".to_string()),
        is_primary_key: true,
        identity: Some(TableColumnIdentity::Always),
        generated: None,
    };

    assert_eq!(default_label(&column), "Identity (Always)");
}

#[test]
fn key_label_marks_primary_key() {
    let column = TableStructureColumn {
        name: "id".to_string(),
        data_type: "bigint".to_string(),
        sql_type_name: "int8".to_string(),
        is_nullable: false,
        default_expression: None,
        is_primary_key: true,
        identity: None,
        generated: None,
    };

    assert_eq!(key_label(&column), "Primary");
}

#[test]
fn key_label_is_empty_for_regular_columns() {
    let column = TableStructureColumn {
        name: "name".to_string(),
        data_type: "text".to_string(),
        sql_type_name: "text".to_string(),
        is_nullable: true,
        default_expression: None,
        is_primary_key: false,
        identity: None,
        generated: None,
    };

    assert_eq!(key_label(&column), "");
}

#[test]
fn escaped_markup_handles_sql_operators() {
    assert_eq!(
        escaped_markup("attrs ->> 'e164' <> ''"),
        "attrs -&gt;&gt; &apos;e164&apos; &lt;&gt; &apos;&apos;"
    );
}

fn test_column(
    name: &str,
    is_primary_key: bool,
    is_generated: bool,
    is_identity: bool,
) -> TableColumn {
    TableColumn {
        name: name.to_string(),
        display_type: "text".to_string(),
        sql_type_name: "text".to_string(),
        enum_values: Vec::new(),
        type_group: ColumnTypeGroup::Text,
        is_array: false,
        is_range: false,
        is_nullable: true,
        is_primary_key,
        has_default: false,
        is_identity,
        is_generated,
        ordinal_position: 1,
    }
}
