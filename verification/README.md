# Codd

Codd is a PostgreSQL client for GNOME. This crate holds its decision logic
as a library verified with Verus, and the program around it.

## Layout

- `src/` — the verified library (`codd`):
  - `sql_scanner.rs`: the SQL statement around the editor's cursor, and the
    completion context.
  - `table_browser.rs`, `filters.rs`, `grid.rs`, `insert_row.rs`: paging,
    sorting, filtering, editing, inserting and deleting rows of a table.
  - `structure.rs`, `structure_view.rs`: the table structure page.
  - `session.rs`, `tab_strip.rs`, `tab_session.rs`, `queries.rs`,
    `workspace.rs`: the window's connection, database switching, schema
    loads, tabs (and saving and restoring them) and query runs.
  - `sidebar.rs`, `object_groups.rs`: the object sidebar and the database
    selector.
  - `connection.rs`, `actions.rs`, `views.rs`, `results.rs`: the connection
    dialog, object and structure actions, the smaller views, and the results
    pane.
  - `text.rs`, `i18n.rs`, `models.rs`: text helpers, message catalog access
    and the data types.
- `tests/` — tests of the library.
- `app/` — the GTK program: widgets, the database connection (sqlx), the
  clock and the message catalog setup.

Each state machine of the library (`TableBrowser`, `TableStructureView`,
`SessionState`, `ConnectionDialog`, ...) takes an event and returns the
action the program performs; answers of asynchronous work come back as
events carrying the id of the request they answer, and only the latest
request of each kind is taken.
