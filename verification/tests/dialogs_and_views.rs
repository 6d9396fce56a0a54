use codd::connection::{
    fill_secrets, saved_password_update, saved_password_update_failure, secrets_to_load,
    ConnectSecrets, ConnectionDialog, ConnectionDialogAction, ConnectionDialogAnswer,
    ConnectionDialogError, ConnectionDialogMsg, ConnectionForm, CredentialState,
    SavedPasswordUpdate, SshAuthMethod,
};
use codd::filters::{FilterOperator, TableFilter, normalize_filters, validate_filter_values};
use codd::models::{
    ColumnTypeGroup, DatabaseObject, DatabaseObjectKind, StructureActionKind,
    StructureActionTarget, TableColumn,
};
use codd::queries::{QueryRuns, RunDecision};
use codd::session::{connect_window, SessionAction, SessionState};
use codd::structure_view::{
    StructureContextAction, StructureContextRequest, TableStructureView,
};
use codd::tab_strip::TabStrip;
use codd::grid::{cell_editor_offers_null, submit_cell_edit, CellEditorButton};
use codd::models::{TableCell, TablePage};
use codd::table_browser::{
    validate_editable_cell, BrowserAction, CellEditRequest, TableBrowser, TableBrowserMsg,
};
use codd::views::history_subtitle_text;

fn dialog_form() -> ConnectionForm {
    ConnectionForm {
        id: None,
        name: "Local".to_string(),
        host: "localhost".to_string(),
        port: "5432".to_string(),
        database: "app".to_string(),
        username: "me".to_string(),
        password: String::new(),
        save_password: false,
        ssh_enabled: true,
        ssh_host: "bastion".to_string(),
        ssh_port: "22".to_string(),
        ssh_username: "me".to_string(),
        ssh_auth_method: SshAuthMethod::Password,
        ssh_password: String::new(),
        ssh_private_key_path: "/keys/id".to_string(),
        ssh_key_passphrase: String::new(),
        ssh_save_secret: false,
        ssh_host_key_fingerprint: Some("SHA256:abc".to_string()),
    }
}

fn users() -> DatabaseObject {
    DatabaseObject {
        schema: "public".to_string(),
        name: "users".to_string(),
        kind: DatabaseObjectKind::Table,
    }
}

fn text_column(name: &str, is_primary_key: bool) -> TableColumn {
    TableColumn {
        name: name.to_string(),
        display_type: "text".to_string(),
        sql_type_name: "text".to_string(),
        enum_values: Vec::new(),
        type_group: ColumnTypeGroup::Text,
        is_array: false,
        is_range: false,
        is_nullable: true,
        is_primary_key,
        has_default: false,
        is_identity: false,
        is_generated: false,
        ordinal_position: 1,
    }
}

#[test]
fn dialog_edits_change_only_their_field() {
    let mut dialog = ConnectionDialog::new(dialog_form(), true);
    assert!(matches!(
        dialog.update(ConnectionDialogMsg::NameChanged("Staging".to_string())),
        ConnectionDialogAction::Nothing
    ));
    assert_eq!(dialog.form.name, "Staging");
    assert_eq!(dialog.form.host, "localhost");
    dialog.update(ConnectionDialogMsg::SshKeyPassphraseChanged("secret".to_string()));
    assert_eq!(dialog.form.ssh_key_passphrase, "secret");
    match dialog.update(ConnectionDialogMsg::SelectSshPrivateKeyFile) {
        ConnectionDialogAction::ChoosePrivateKeyFile(path) => assert_eq!(path, "/keys/id"),
        _ => panic!("expected a file chooser"),
    }
}

#[test]
fn dialog_keeps_the_host_key_for_the_same_ssh_host() {
    let mut dialog = ConnectionDialog::new(dialog_form(), true);
    dialog.pending_trusted_host_key_save = true;
    dialog.update(ConnectionDialogMsg::SshHostChanged("bastion".to_string()));
    assert_eq!(dialog.form.ssh_host_key_fingerprint.as_deref(), Some("SHA256:abc"));
    assert!(dialog.pending_trusted_host_key_save);
    dialog.update(ConnectionDialogMsg::SshPortChanged("2222".to_string()));
    assert!(dialog.form.ssh_host_key_fingerprint.is_none());
    assert!(!dialog.pending_trusted_host_key_save);
}

#[test]
fn dialog_keeps_the_credential_error_and_reports_plain_failures() {
    let mut dialog = ConnectionDialog::new(dialog_form(), true);
    dialog.take_answer(ConnectionDialogAnswer::CredentialChecked(Err("no keyring".to_string())));
    assert!(matches!(&dialog.credential_state, CredentialState::Unavailable(e) if e == "no keyring"));
    match dialog.take_answer(ConnectionDialogAnswer::ConnectFinished(Err(
        ConnectionDialogError::Message("refused".to_string()),
    ))) {
        ConnectionDialogAction::ShowError { heading, detail } => {
            assert_eq!(heading, "Connection failed");
            assert_eq!(detail, "refused");
        }
        _ => panic!("expected an error"),
    }
}

#[test]
fn read_secrets_fill_only_what_was_asked() {
    let to_load = secrets_to_load("", true, Some(true), SshAuthMethod::PrivateKey, "", "");
    let secrets = ConnectSecrets {
        password: String::new(),
        ssh_password: "typed".to_string(),
        ssh_key_passphrase: String::new(),
    };
    let filled = fill_secrets(
        secrets.clone(),
        to_load,
        Ok(Some("db-secret".to_string())),
        Ok(Some("key-secret".to_string())),
    )
    .unwrap();
    assert_eq!(filled.password, "db-secret");
    assert_eq!(filled.ssh_password, "typed");
    assert_eq!(filled.ssh_key_passphrase, "key-secret");

    let failed = fill_secrets(secrets.clone(), to_load, Err("locked".to_string()), Ok(None));
    assert_eq!(failed.unwrap_err(), "Reading the saved password failed: locked");
    let failed = fill_secrets(secrets, to_load, Ok(None), Err("locked".to_string()));
    assert_eq!(failed.unwrap_err(), "Reading the saved SSH secret failed: locked");
}

#[test]
fn saved_password_after_connecting() {
    assert_eq!(saved_password_update(true, ""), SavedPasswordUpdate::Keep);
    assert_eq!(saved_password_update(true, "pw"), SavedPasswordUpdate::Store);
    assert_eq!(saved_password_update(false, "pw"), SavedPasswordUpdate::Delete);
    assert!(saved_password_update_failure(true, Ok(())).is_none());
    let failure = saved_password_update_failure(true, Err("denied".to_string())).unwrap();
    assert!(failure.disable_saved_password);
    assert_eq!(failure.warning, "Updating the saved password failed: denied");
    let failure = saved_password_update_failure(false, Err("denied".to_string())).unwrap();
    assert!(!failure.disable_saved_password);
}

#[test]
fn connecting_cancels_running_queries() {
    let mut runs = QueryRuns::new();
    runs.add_tab(1);
    runs.add_tab(2);
    assert!(matches!(runs.start(2, true, "select 1"), RunDecision::Started(_)));
    let mut session = SessionState::new();
    let (action, cancelled) = connect_window(&mut session, &mut runs, "app".to_string());
    assert!(matches!(action, SessionAction::LoadAfterConnect { .. }));
    assert_eq!(cancelled, vec![2]);
    assert!(runs.tabs.iter().all(|tab| tab.active_query.is_none()));
}

#[test]
fn selecting_a_query_tab_makes_it_active() {
    let mut strip = TabStrip::new();
    strip.add_query_tab_with_id(3);
    strip.add_query_tab_with_id(5);
    assert!(strip.select_query_tab(3));
    assert_eq!(strip.active_query_tab_id, 3);
    assert!(!strip.select_query_tab(9));
    assert_eq!(strip.active_query_tab_id, 3);
}

#[test]
fn structure_context_menu_requests() {
    let mut view: TableStructureView<u8> = TableStructureView::new();
    assert!(view.take_context_request(StructureContextRequest::CopyName).is_none());
    let target = StructureActionTarget {
        table: users(),
        kind: StructureActionKind::Index,
        name: "users_name_idx".to_string(),
        editable: false,
    };
    view.open_context_menu(target.clone());
    assert!(view.take_context_request(StructureContextRequest::Rename).is_none());
    assert!(view.context_target.is_none());
    view.open_context_menu(target.clone());
    match view.take_context_request(StructureContextRequest::CopyName) {
        Some(StructureContextAction::Copied { text, kind }) => {
            assert_eq!(text, "users_name_idx");
            assert_eq!(kind, StructureActionKind::Index);
        }
        _ => panic!("expected a copy"),
    }
    let mut editable = target;
    editable.editable = true;
    view.open_context_menu(editable);
    assert!(matches!(
        view.take_context_request(StructureContextRequest::Drop),
        Some(StructureContextAction::Drop(t)) if t.name == "users_name_idx"
    ));
}

#[test]
fn new_browser_asks_for_a_table() {
    let browser = TableBrowser::new(100);
    assert_eq!(browser.status_title, "Select a table");
    assert_eq!(
        browser.status_description.as_deref(),
        Some("Choose a table or view from the sidebar to browse its rows.")
    );
    assert!(browser.sort.is_none());
}

#[test]
fn cell_edit_reasons_follow_the_first_problem() {
    let columns = vec![text_column("id", true), text_column("name", false)];
    assert_eq!(validate_editable_cell(&users(), &columns, 1), Ok(()));
    assert_eq!(
        validate_editable_cell(&users(), &columns, 0),
        Err("Primary key columns are read-only for now.".to_string())
    );
    assert_eq!(
        validate_editable_cell(&users(), &columns, 2),
        Err("The selected cell is no longer available.".to_string())
    );
    let mut view = users();
    view.kind = DatabaseObjectKind::View;
    assert_eq!(
        validate_editable_cell(&view, &columns, 1),
        Err("Only tables can be edited.".to_string())
    );
}

#[test]
fn filter_messages_and_normalizing_twice() {
    let equals = FilterOperator { code: 0, needs_value: true };
    let filters = vec![TableFilter::CustomSql { expression: "  ".to_string() }];
    assert_eq!(validate_filter_values(&filters), Err("Missing custom SQL filter".to_string()));
    let columns = vec![text_column("name", false)];
    let operators = vec![vec![equals]];
    let filters = vec![
        TableFilter::Column { column_name: "name".to_string(), operator: equals, value: None },
        TableFilter::Column { column_name: "gone".to_string(), operator: equals, value: None },
    ];
    let once = normalize_filters(&columns, &operators, &filters);
    let twice = normalize_filters(&columns, &operators, &once);
    assert_eq!(once.len(), 1);
    assert_eq!(format!("{:?}", once), format!("{:?}", twice));
}

fn loaded_browser() -> TableBrowser {
    let mut browser = TableBrowser::new(100);
    let id = match browser.update(TableBrowserMsg::Open(users())) {
        BrowserAction::LoadPage { id, .. } => id,
        _ => panic!("expected a page load"),
    };
    let mut name = text_column("name", false);
    name.is_nullable = false;
    let page = TablePage {
        object: users(),
        columns: vec![text_column("id", true), name, text_column("note", false)],
        rows: vec![vec![
            TableCell { value: "1".to_string(), is_null: false },
            TableCell { value: "Ada".to_string(), is_null: false },
            TableCell { value: String::new(), is_null: true },
        ]],
        offset: 0,
        has_next_page: false,
    };
    browser.update(TableBrowserMsg::PageLoaded { id, result: Ok(page) });
    browser
}

#[test]
fn cell_editor_offers_null_only_for_nullable_columns() {
    let mut column = text_column("note", false);
    assert!(cell_editor_offers_null(&column));
    column.is_nullable = false;
    assert!(!cell_editor_offers_null(&column));
}

#[test]
fn cell_editor_buttons_submit_null_or_the_value() {
    let null = submit_cell_edit(CellEditorButton::SetNull, 4, 2, 1, "typed".to_string());
    assert_eq!((null.page_generation, null.row_index, null.column_index), (4, 2, 1));
    assert_eq!(null.value, None);
    let save = submit_cell_edit(CellEditorButton::Save, 4, 2, 1, "typed".to_string());
    assert_eq!(save.value.as_deref(), Some("typed"));
}

#[test]
fn cell_edit_requests_and_submissions() {
    let browser = loaded_browser();
    match browser.request_cell_edit(0, 1) {
        CellEditRequest::Open { page_generation, row_index, column_index, offers_null } => {
            assert_eq!(page_generation, browser.page_generation);
            assert_eq!((row_index, column_index), (0, 1));
            assert!(!offers_null);
        }
        _ => panic!("expected the editor"),
    }
    assert!(matches!(
        browser.request_cell_edit(0, 2),
        CellEditRequest::Open { offers_null: true, .. }
    ));
    match browser.request_cell_edit(0, 0) {
        CellEditRequest::Refused(reason) => {
            assert_eq!(reason, "Primary key columns are read-only for now.")
        }
        _ => panic!("expected a refusal"),
    }
    assert!(matches!(browser.request_cell_edit(1, 1), CellEditRequest::Ignore));
    assert!(matches!(browser.request_cell_edit(0, 3), CellEditRequest::Ignore));

    let current = submit_cell_edit(CellEditorButton::Save, browser.page_generation, 0, 1, "Bea".to_string());
    assert!(browser.takes_cell_edit(&current));
    let old = submit_cell_edit(
        CellEditorButton::Save,
        browser.page_generation.wrapping_add(1),
        0,
        1,
        "Bea".to_string(),
    );
    assert!(!browser.takes_cell_edit(&old));
    let gone = submit_cell_edit(CellEditorButton::SetNull, browser.page_generation, 5, 1, String::new());
    assert!(!browser.takes_cell_edit(&gone));
}

#[test]
fn history_time_falls_back_to_a_note() {
    assert_eq!(history_subtitle_text(Some("2024-01-02 03:04".to_string())), "2024-01-02 03:04");
    assert_eq!(history_subtitle_text(None), "Unknown time");
}
