//! What the results pane shows for the outcome of a query.

use vstd::prelude::*;
use crate::i18n::{tr, tr_plural, translated, translated_plural};
use crate::models::{
    QueryExecutionResult, QueryResult, MAX_QUERY_RESULT_ROW_LIMIT, MIN_QUERY_RESULT_ROW_LIMIT,
};
use crate::text::{
    ascii_lower_seq, contains_spec, contains_text, decimal, decimal_string, to_ascii_lowercase,
    truncate_for_display, truncated_spec,
};

verus! {

/// A count as the `u32` that plural forms are chosen by: counts beyond
/// `u32::MAX` count as `u32::MAX`.
pub fn plural_count(count: usize) -> (r: u32)
    ensures
        r == (if count > u32::MAX {
            u32::MAX as int
        } else {
            count as int
        }),
{
    if count > u32::MAX as usize {
        u32::MAX
    } else {
        count as u32
    }
}

/// A count of affected rows as the `u32` that plural forms are chosen by.
pub fn plural_count_u64(count: u64) -> (r: u32)
    ensures
        r == (if count > u32::MAX {
            u32::MAX as int
        } else {
            count as int
        }),
{
    if count > u32::MAX as u64 {
        u32::MAX
    } else {
        count as u32
    }
}

/// `count`, a `+` when the row limit cut the result short, a space and the
/// noun.
pub open spec fn row_count_text(count: nat, limit_reached: bool, noun: Seq<char>) -> Seq<char> {
    decimal(count) + (if limit_reached {
        "+"@
    } else {
        Seq::empty()
    }) + " "@ + noun
}

/// The status line for `count` returned rows, given the translated noun.
pub fn row_count_status(count: usize, limit_reached: bool, noun: &str) -> (r: String)
    ensures
        r@ == row_count_text(count as nat, limit_reached, noun@),
{
    let mut r = decimal_string(count as u64);
    if limit_reached {
        r.append("+");
    }
    r.append(" ");
    r.append(noun);
    r
}

/// The count that plural forms are chosen by for `count`.
pub open spec fn plural_count_spec(count: nat) -> u32 {
    if count > u32::MAX {
        u32::MAX
    } else {
        count as u32
    }
}

/// `text` is a status line for `rows` returned rows: a translation of
/// "Query returned no rows." when there are none, else the count, marked
/// with `+` when the row limit was reached, and the translated noun "row" or
/// "rows" for that count.
pub open spec fn rows_status_text(rows: nat, limit_reached: bool, text: Seq<char>) -> bool {
    if rows == 0 {
        translated("Query returned no rows."@, text)
    } else {
        exists|noun: Seq<char>|
            #![trigger row_count_text(rows, limit_reached, noun)]
            translated_plural("row"@, "rows"@, plural_count_spec(rows), noun) && text
                == row_count_text(rows, limit_reached, noun)
    }
}

/// The status line for a query's rows: how many came back, marked with `+`
/// when the row limit was reached, or a note that none came back.
pub fn result_status_text(result: &QueryResult) -> (r: String)
    ensures
        rows_status_text(result.rows@.len(), result.row_limit_reached, r@),
{
    if result.rows.len() == 0 {
        return tr("Query returned no rows.");
    }
    let noun = tr_plural("row", "rows", plural_count(result.rows.len()));
    let r = row_count_status(result.rows.len(), result.row_limit_reached, noun.as_str());
    proof {
        assert(translated_plural("row"@, "rows"@, plural_count_spec(result.rows@.len()), noun@));
        assert(r@ == row_count_text(result.rows@.len(), result.row_limit_reached, noun@));
    }
    r
}

/// The title for a statement that affected `rows` rows, given the noun.
pub fn affected_rows_title(rows: u64, noun: &str) -> (r: String)
    ensures
        r@ == decimal(rows as nat) + " "@ + noun@,
{
    let mut r = decimal_string(rows);
    r.append(" ");
    r.append(noun);
    r
}

/// A cell's text as shown in the grid: headers whole, values cut to 80
/// characters.
pub fn display_cell_value(value: &str, is_header: bool) -> (r: String)
    ensures
        r@ == (if is_header {
            value@
        } else {
            truncated_spec(value@, 80)
        }),
{
    if is_header {
        return value.to_string();
    }
    truncate_for_display(value, 80)
}

/// The query stopped at the row limit.
pub fn query_result_reached_row_limit(result: &QueryExecutionResult) -> (r: bool)
    ensures
        r == (match result {
            QueryExecutionResult::Rows(rows) => rows.row_limit_reached,
            QueryExecutionResult::AffectedRows(_) => false,
        }),
{
    match result {
        QueryExecutionResult::Rows(rows) => rows.row_limit_reached,
        QueryExecutionResult::AffectedRows(_) => false,
    }
}

/// The icon of a status page: an error, a running load, or the idle icon.
pub fn status_icon_name(is_error: bool, is_loading: bool, idle_icon: &'static str) -> (r:
    &'static str)
    ensures
        r@ == (if is_error {
            "dialog-error-symbolic"@
        } else if is_loading {
            "view-refresh-symbolic"@
        } else {
            idle_icon@
        }),
{
    if is_error {
        "dialog-error-symbolic"
    } else if is_loading {
        "view-refresh-symbolic"
    } else {
        idle_icon
    }
}

/// The messages that change what the results pane shows.
#[derive(Debug)]
pub enum QueryResultsMsg {
    Clear,
    Loading,
    Cancelled,
    RowLimitChanged(usize),
    ShowResult(QueryExecutionResult),
    ShowError(String),
}

/// What the results pane shows, and how many rows its tab fetches.
#[derive(Debug)]
pub struct QueryResults {
    pub status_text: String,
    pub is_error: bool,
    pub is_loading: bool,
    pub result: Option<QueryResult>,
    pub status_title: String,
    pub status_description: Option<String>,
    pub row_limit: usize,
}

/// `limit` held between the fewest and the most rows a tab may fetch.
pub open spec fn clamped_row_limit(limit: usize) -> usize {
    if limit < MIN_QUERY_RESULT_ROW_LIMIT {
        MIN_QUERY_RESULT_ROW_LIMIT
    } else if limit > MAX_QUERY_RESULT_ROW_LIMIT {
        MAX_QUERY_RESULT_ROW_LIMIT
    } else {
        limit
    }
}

/// `limit` held between the fewest and the most rows a tab may fetch.
pub fn clamp_row_limit(limit: usize) -> (r: usize)
    ensures
        r == clamped_row_limit(limit),
{
    if limit < MIN_QUERY_RESULT_ROW_LIMIT {
        MIN_QUERY_RESULT_ROW_LIMIT
    } else if limit > MAX_QUERY_RESULT_ROW_LIMIT {
        MAX_QUERY_RESULT_ROW_LIMIT
    } else {
        limit
    }
}

impl QueryResults {
    /// The pane before any query ran, for a tab that fetches `row_limit`
    /// rows.
    pub fn new(row_limit: usize) -> (r: QueryResults)
        ensures
            !r.is_error,
            !r.is_loading,
            r.result is None,
            r.row_limit == row_limit,
            translated("Run a query to see results"@, r.status_text@),
            translated("Run a query"@, r.status_title@),
            (r.status_description matches Some(d) && translated(
                "Results will appear here after execution."@,
                d@,
            )),
    {
        QueryResults {
            status_text: tr("Run a query to see results"),
            is_error: false,
            is_loading: false,
            result: None,
            status_title: tr("Run a query"),
            status_description: Some(tr("Results will appear here after execution.")),
            row_limit,
        }
    }

    /// The icon of the status page.
    pub fn status_icon_name(&self) -> (r: &'static str)
        ensures
            r@ == (if self.is_error {
                "dialog-error-symbolic"@
            } else if self.is_loading {
                "view-refresh-symbolic"@
            } else {
                "network-server-symbolic"@
            }),
    {
        status_icon_name(self.is_error, self.is_loading, "network-server-symbolic")
    }

    /// Whether the grid is shown rather than the status page.
    pub fn shows_grid(&self) -> (r: bool)
        ensures
            r == self.result is Some,
    {
        self.result.is_some()
    }

    /// Applies a message. Only a successful query with rows leaves rows to
    /// show; a running query shows the spinner; only an error is shown as
    /// one, with its message as the description. A new row limit is held in
    /// range and returned for the tab to use; nothing else changes then.
    pub fn update(&mut self, msg: QueryResultsMsg) -> (changed_limit: Option<usize>)
        ensures
            match msg {
                QueryResultsMsg::RowLimitChanged(limit) => {
                    &&& final(self).row_limit == clamped_row_limit(limit)
                    &&& changed_limit == Some(clamped_row_limit(limit))
                    &&& final(self).status_text == old(self).status_text
                    &&& final(self).is_error == old(self).is_error
                    &&& final(self).is_loading == old(self).is_loading
                    &&& final(self).result == old(self).result
                    &&& final(self).status_title == old(self).status_title
                    &&& final(self).status_description == old(self).status_description
                },
                _ => {
                    &&& changed_limit is None
                    &&& final(self).row_limit == old(self).row_limit
                    &&& final(self).is_loading == (msg is Loading)
                    &&& final(self).is_error == (msg is ShowError)
                },
            },
            match msg {
                QueryResultsMsg::Clear => {
                    &&& final(self).result is None
                    &&& translated("Run a query to see results"@, final(self).status_text@)
                    &&& translated("Run a query"@, final(self).status_title@)
                    &&& (final(self).status_description matches Some(d) && translated(
                        "Results will appear here after execution."@,
                        d@,
                    ))
                },
                QueryResultsMsg::Loading => {
                    &&& final(self).result is None
                    &&& translated("Running query..."@, final(self).status_text@)
                    &&& translated("Running query"@, final(self).status_title@)
                    &&& (final(self).status_description matches Some(d) && translated(
                        "Waiting for PostgreSQL to return results."@,
                        d@,
                    ))
                },
                QueryResultsMsg::Cancelled => {
                    &&& final(self).result is None
                    &&& final(self).status_text@ == Seq::<char>::empty()
                    &&& translated("Query cancelled"@, final(self).status_title@)
                    &&& (final(self).status_description matches Some(d) && translated(
                        "The query was cancelled."@,
                        d@,
                    ))
                },
                QueryResultsMsg::RowLimitChanged(_) => true,
                QueryResultsMsg::ShowResult(QueryExecutionResult::Rows(rows)) => {
                    &&& (rows.rows@.len() > 0 ==> final(self).result == Some(rows))
                    &&& (rows.rows@.len() == 0 ==> final(self).result is None)
                    &&& rows_status_text(
                        rows.rows@.len(),
                        rows.row_limit_reached,
                        final(self).status_text@,
                    )
                    &&& (rows.rows@.len() > 0 ==> final(self).status_title@ == Seq::<char>::empty())
                    &&& (rows.rows@.len() == 0 ==> translated(
                        "Query returned no rows."@,
                        final(self).status_title@,
                    ))
                    &&& final(self).status_description is None
                },
                QueryResultsMsg::ShowResult(QueryExecutionResult::AffectedRows(n)) => {
                    &&& final(self).result is None
                    &&& final(self).status_text@ == Seq::<char>::empty()
                    &&& exists|noun: Seq<char>|
                        #![trigger translated_plural("row affected"@, "rows affected"@, plural_count_spec(n as nat), noun)]
                        translated_plural(
                            "row affected"@,
                            "rows affected"@,
                            plural_count_spec(n as nat),
                            noun,
                        ) && final(self).status_title@ == decimal(n as nat) + " "@ + noun
                    &&& (final(self).status_description matches Some(d) && translated(
                        "The statement completed successfully."@,
                        d@,
                    ))
                },
                QueryResultsMsg::ShowError(error) => {
                    &&& final(self).result is None
                    &&& final(self).status_text@ == Seq::<char>::empty()
                    &&& translated("Query failed"@, final(self).status_title@)
                    &&& final(self).status_description == Some(error)
                },
            },
    {
        match msg {
            QueryResultsMsg::Clear => {
                self.is_loading = false;
                self.is_error = false;
                self.status_text = tr("Run a query to see results");
                self.result = None;
                self.status_title = tr("Run a query");
                self.status_description = Some(tr("Results will appear here after execution."));
                None
            },
            QueryResultsMsg::Loading => {
                self.is_loading = true;
                self.is_error = false;
                self.status_text = tr("Running query...");
                self.result = None;
                self.status_title = tr("Running query");
                self.status_description = Some(tr("Waiting for PostgreSQL to return results."));
                None
            },
            QueryResultsMsg::Cancelled => {
                self.is_loading = false;
                self.is_error = false;
                self.status_text = String::new();
                self.result = None;
                self.status_title = tr("Query cancelled");
                self.status_description = Some(tr("The query was cancelled."));
                None
            },
            QueryResultsMsg::RowLimitChanged(limit) => {
                self.row_limit = clamp_row_limit(limit);
                Some(self.row_limit)
            },
            QueryResultsMsg::ShowResult(QueryExecutionResult::Rows(result)) => {
                self.is_loading = false;
                self.is_error = false;
                self.status_text = result_status_text(&result);
                self.status_title = if result.rows.len() == 0 {
                    tr("Query returned no rows.")
                } else {
                    String::new()
                };
                self.status_description = None;
                self.result = if result.rows.len() == 0 {
                    None
                } else {
                    Some(result)
                };
                None
            },
            QueryResultsMsg::ShowResult(QueryExecutionResult::AffectedRows(rows)) => {
                self.is_loading = false;
                self.is_error = false;
                self.status_text = String::new();
                let noun = tr_plural("row affected", "rows affected", plural_count_u64(rows));
                self.status_title = affected_rows_title(rows, noun.as_str());
                proof {
                    assert(translated_plural(
                        "row affected"@,
                        "rows affected"@,
                        plural_count_spec(rows as nat),
                        noun@,
                    ));
                }
                self.status_description = Some(tr("The statement completed successfully."));
                self.result = None;
                None
            },
            QueryResultsMsg::ShowError(error) => {
                self.is_loading = false;
                self.is_error = true;
                self.status_text = String::new();
                self.status_title = tr("Query failed");
                self.status_description = Some(error);
                self.result = None;
                None
            },
        }
    }
}

/// An export error that comes from the read-only transaction the export
/// runs in: its text, in ASCII lower case, mentions a read-only transaction,
/// a statement that cannot execute, or transaction control.
pub open spec fn read_only_export_error(error: Seq<char>) -> bool {
    let lower = ascii_lower_seq(error);
    ||| contains_spec(lower, "read-only transaction"@)
    ||| contains_spec(lower, "cannot execute"@)
    ||| contains_spec(lower, "transaction control statements cannot be exported"@)
}

/// The message shown when exporting a query to CSV failed: for errors of
/// the read-only transaction, a translated explanation in two paragraphs;
/// otherwise the error itself.
pub fn query_export_error_message(error: &str) -> (r: String)
    ensures
        !read_only_export_error(error@) ==> r@ == error@,
        read_only_export_error(error@) ==> exists|first: Seq<char>, second: Seq<char>|
            #![trigger translated(export_note_text(), first), translated(export_advice_text(), second)]
            translated(export_note_text(), first) && translated(export_advice_text(), second) && r@
                == first + "\n\n"@ + second,
{
    let lower = to_ascii_lowercase(error);
    if contains_text(lower.as_str(), "read-only transaction") || contains_text(
        lower.as_str(),
        "cannot execute",
    ) || contains_text(lower.as_str(), "transaction control statements cannot be exported") {
        let mut r = tr("CSV export runs queries in a read-only transaction.");
        let ghost first = r@;
        r.append("\n\n");
        let second = tr(
            "Use a SELECT query for export. Statements that write or change transaction state, such as UPDATE, INSERT, DELETE, CREATE, COMMIT, or ROLLBACK, cannot be exported.",
        );
        r.append(second.as_str());
        proof {
            assert(r@ == first + "\n\n"@ + second@);
            assert(translated(export_note_text(), first));
            assert(translated(export_advice_text(), second@));
        }
        return r;
    }
    error.to_string()
}

/// The text of the note that CSV export is read-only.
pub open spec fn export_note_text() -> Seq<char> {
    "CSV export runs queries in a read-only transaction."@
}

/// The text of the advice on which queries can be exported.
pub open spec fn export_advice_text() -> Seq<char> {
    "Use a SELECT query for export. Statements that write or change transaction state, such as UPDATE, INSERT, DELETE, CREATE, COMMIT, or ROLLBACK, cannot be exported."@
}

} // verus!
