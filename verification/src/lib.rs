//! Decision logic of a PostgreSQL client: SQL statement scanning, table
//! paging, row duplication, result summaries and the texts shown to users.

pub mod actions;
pub mod connection;
pub mod filters;
pub mod grid;
pub mod i18n;
pub mod insert_row;
pub mod models;
pub mod object_groups;
pub mod queries;
pub mod results;
pub mod session;
pub mod sidebar;
pub mod sql_scanner;
pub mod structure;
pub mod structure_view;
pub mod tab_session;
pub mod tab_strip;
pub mod table_browser;
pub mod text;
pub mod views;
pub mod workspace;
