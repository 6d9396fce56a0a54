//! Finding the SQL statement around the editor's cursor.
//!
//! Statements are separated by `;`. A `;` inside a single-quoted string, a
//! double-quoted identifier, a `--` line comment or a `/* */` block comment
//! separates nothing. A quote closes its span only when no quote of the same
//! kind stands right before or right after it, so a doubled quote stays
//! inside the span; an empty literal `''` is read that way too, and the
//! string it opens runs on (in `select '';` the `;` ends nothing).
//! Positions are character offsets.

use vstd::prelude::*;
use crate::models::CompletionItemKind;
use crate::text::{chars_of, string_from_chars};

verus! {

/// Where the scanner is: in plain SQL or inside a quoted or commented span.
#[derive(Clone, Copy, Debug, PartialEq, Eq, Structural)]
pub enum SqlScannerState {
    Normal,
    SingleQuotedString,
    DoubleQuotedIdentifier,
    LineComment,
    BlockComment,
}

/// A left-to-right scanner over SQL text.
#[derive(Clone, Copy, Debug)]
pub struct SqlScanner {
    pub state: SqlScannerState,
}

/// `sql` holds `c` at position `i`.
pub open spec fn char_at_is(sql: Seq<char>, i: int, c: char) -> bool {
    0 <= i < sql.len() && sql[i] == c
}

/// One step of the scanner: the state after the character at `index` has been
/// read in state `state`, and whether that character stands in plain SQL.
/// A quote that closes a quoted span must have no quote of the same kind
/// right before or right after it (a doubled quote stands for the quote).
pub open spec fn scan_step(sql: Seq<char>, index: int, state: SqlScannerState) -> (
    SqlScannerState,
    bool,
) {
    let c = sql[index];
    match state {
        SqlScannerState::Normal => {
            if c == '\'' {
                (SqlScannerState::SingleQuotedString, false)
            } else if c == '"' {
                (SqlScannerState::DoubleQuotedIdentifier, false)
            } else if c == '-' && char_at_is(sql, index + 1, '-') {
                (SqlScannerState::LineComment, false)
            } else if c == '/' && char_at_is(sql, index + 1, '*') {
                (SqlScannerState::BlockComment, false)
            } else {
                (SqlScannerState::Normal, true)
            }
        },
        SqlScannerState::SingleQuotedString => {
            if c == '\'' && !char_at_is(sql, index + 1, '\'') && !char_at_is(sql, index - 1, '\'') {
                (SqlScannerState::Normal, false)
            } else {
                (SqlScannerState::SingleQuotedString, false)
            }
        },
        SqlScannerState::DoubleQuotedIdentifier => {
            if c == '"' && !char_at_is(sql, index + 1, '"') && !char_at_is(sql, index - 1, '"') {
                (SqlScannerState::Normal, false)
            } else {
                (SqlScannerState::DoubleQuotedIdentifier, false)
            }
        },
        SqlScannerState::LineComment => {
            if c == '\n' {
                (SqlScannerState::Normal, false)
            } else {
                (SqlScannerState::LineComment, false)
            }
        },
        SqlScannerState::BlockComment => {
            if c == '/' && char_at_is(sql, index - 1, '*') {
                (SqlScannerState::Normal, false)
            } else {
                (SqlScannerState::BlockComment, false)
            }
        },
    }
}

/// The scanner's state after reading the characters in `from..to`, having
/// started in plain SQL at `from`.
pub open spec fn scan_state(sql: Seq<char>, from: int, to: int) -> SqlScannerState
    decreases to - from,
{
    if to <= from {
        SqlScannerState::Normal
    } else {
        scan_step(sql, to - 1, scan_state(sql, from, to - 1)).0
    }
}

/// The character at `i` is a `;` that ends a statement, for a scan started at
/// `from`.
pub open spec fn is_statement_end(sql: Seq<char>, from: int, i: int) -> bool {
    &&& 0 <= i < sql.len()
    &&& sql[i] == ';'
    &&& scan_step(sql, i, scan_state(sql, from, i)).1
}

/// Where the statement holding position `cursor` starts: right after the last
/// statement-ending `;` before `cursor` (scanning from the text's start), or at
/// the start of the text.
pub open spec fn statement_start_spec(sql: Seq<char>, cursor: int) -> int
    decreases cursor,
{
    if cursor <= 0 {
        0
    } else if is_statement_end(sql, 0, cursor - 1) {
        cursor
    } else {
        statement_start_spec(sql, cursor - 1)
    }
}

/// The first statement-ending `;` at or after `i`, for a scan started at
/// `cursor`; the text's length when there is none.
pub open spec fn statement_end_from(sql: Seq<char>, cursor: int, i: int) -> int
    decreases sql.len() - i,
{
    if i >= sql.len() {
        sql.len() as int
    } else if is_statement_end(sql, cursor, i) {
        i
    } else {
        statement_end_from(sql, cursor, i + 1)
    }
}

/// Where the statement holding position `cursor` ends: at the first
/// statement-ending `;` from `cursor` on, scanning afresh from `cursor`.
pub open spec fn statement_end_spec(sql: Seq<char>, cursor: int) -> int {
    statement_end_from(sql, cursor, cursor)
}

/// The character position of the cursor offset `offset` in a text of `len`
/// characters: negative offsets count as 0, offsets past the end as the end.
pub open spec fn cursor_position(len: int, offset: int) -> int {
    if offset < 0 {
        0
    } else if offset > len {
        len
    } else {
        offset
    }
}

/// The statement around the cursor.
pub open spec fn current_statement_spec(sql: Seq<char>, cursor_offset: int) -> Seq<char> {
    let k = cursor_position(sql.len() as int, cursor_offset);
    sql.subrange(statement_start_spec(sql, k), statement_end_spec(sql, k))
}

impl SqlScanner {
    /// A scanner in plain SQL.
    pub fn new() -> (r: SqlScanner)
        ensures
            r.state == SqlScannerState::Normal,
    {
        SqlScanner { state: SqlScannerState::Normal }
    }

    /// Reads the character at `index` and returns whether it stands in plain
    /// SQL.
    pub fn advance(&mut self, sql: &Vec<char>, index: usize) -> (plain: bool)
        requires
            index < sql.len(),
        ensures
            (final(self).state, plain) == scan_step(sql@, index as int, old(self).state),
    {
        let c = sql[index];
        let next = index + 1;
        match self.state {
            SqlScannerState::Normal => {
                if c == '\'' {
                    self.state = SqlScannerState::SingleQuotedString;
                    false
                } else if c == '"' {
                    self.state = SqlScannerState::DoubleQuotedIdentifier;
                    false
                } else if c == '-' && next < sql.len() && sql[next] == '-' {
                    self.state = SqlScannerState::LineComment;
                    false
                } else if c == '/' && next < sql.len() && sql[next] == '*' {
                    self.state = SqlScannerState::BlockComment;
                    false
                } else {
                    true
                }
            },
            SqlScannerState::SingleQuotedString => {
                if c == '\'' && !(next < sql.len() && sql[next] == '\'') && !(index > 0
                    && sql[index - 1] == '\'') {
                    self.state = SqlScannerState::Normal;
                }
                false
            },
            SqlScannerState::DoubleQuotedIdentifier => {
                if c == '"' && !(next < sql.len() && sql[next] == '"') && !(index > 0 && sql[index
                    - 1] == '"') {
                    self.state = SqlScannerState::Normal;
                }
                false
            },
            SqlScannerState::LineComment => {
                if c == '\n' {
                    self.state = SqlScannerState::Normal;
                }
                false
            },
            SqlScannerState::BlockComment => {
                if c == '/' && index > 0 && sql[index - 1] == '*' {
                    self.state = SqlScannerState::Normal;
                }
                false
            },
        }
    }
}

/// Where the statement holding `cursor_index` starts.
pub fn statement_start(sql: &Vec<char>, cursor_index: usize) -> (start: usize)
    requires
        cursor_index <= sql.len(),
    ensures
        start == statement_start_spec(sql@, cursor_index as int),
{
    let mut start: usize = 0;
    let mut scanner = SqlScanner::new();
    let mut i: usize = 0;
    while i < cursor_index
        invariant
            i <= cursor_index <= sql.len(),
            scanner.state == scan_state(sql@, 0, i as int),
            start == statement_start_spec(sql@, i as int),
        decreases cursor_index - i,
    {
        let plain = scanner.advance(sql, i);
        if plain && sql[i] == ';' {
            start = i + 1;
        }
        i = i + 1;
    }
    start
}

/// Where the statement holding `cursor_index` ends; a fresh scan starts at the
/// cursor.
pub fn statement_end(sql: &Vec<char>, cursor_index: usize) -> (end: usize)
    requires
        cursor_index <= sql.len(),
    ensures
        end == statement_end_spec(sql@, cursor_index as int),
{
    let mut scanner = SqlScanner::new();
    let mut i: usize = cursor_index;
    while i < sql.len()
        invariant
            cursor_index <= i <= sql.len(),
            scanner.state == scan_state(sql@, cursor_index as int, i as int),
            statement_end_spec(sql@, cursor_index as int) == statement_end_from(
                sql@,
                cursor_index as int,
                i as int,
            ),
        decreases sql.len() - i,
    {
        let plain = scanner.advance(sql, i);
        if plain && sql[i] == ';' {
            return i;
        }
        i = i + 1;
    }
    sql.len()
}

/// The character position of the cursor offset in a text of `len` characters.
pub fn byte_index_for_char_offset(len: usize, offset: i32) -> (k: usize)
    ensures
        k == cursor_position(len as int, offset as int),
{
    if offset < 0 {
        0
    } else if offset as usize > len {
        len
    } else {
        offset as usize
    }
}

/// The text of the SQL statement around the cursor, for completion.
pub fn current_statement_sql(sql: &str, cursor_offset: i32) -> (r: String)
    ensures
        r@ == current_statement_spec(sql@, cursor_offset as int),
{
    let chars = chars_of(sql);
    let k = byte_index_for_char_offset(chars.len(), cursor_offset);
    let start = statement_start(&chars, k);
    let end = statement_end(&chars, k);
    proof {
        lemma_statement_bounds(chars@, k as int);
    }
    let mut piece: Vec<char> = Vec::new();
    let mut i = start;
    while i < end
        invariant
            start <= i <= end <= chars.len(),
            piece@ == chars@.subrange(start as int, i as int),
        decreases end - i,
    {
        piece.push(chars[i]);
        i = i + 1;
    }
    string_from_chars(&piece)
}

/// The statement around a cursor starts at or before it and ends at or after
/// it, within the text.
pub proof fn lemma_statement_bounds(sql: Seq<char>, cursor: int)
    requires
        0 <= cursor <= sql.len(),
    ensures
        0 <= statement_start_spec(sql, cursor) <= cursor,
        cursor <= statement_end_spec(sql, cursor) <= sql.len(),
{
    lemma_start_bounds(sql, cursor);
    lemma_end_bounds(sql, cursor, cursor);
}

proof fn lemma_start_bounds(sql: Seq<char>, cursor: int)
    requires
        0 <= cursor,
    ensures
        0 <= statement_start_spec(sql, cursor) <= cursor,
    decreases cursor,
{
    if cursor > 0 && !is_statement_end(sql, 0, cursor - 1) {
        lemma_start_bounds(sql, cursor - 1);
    }
}

proof fn lemma_end_bounds(sql: Seq<char>, cursor: int, i: int)
    requires
        0 <= i <= sql.len(),
    ensures
        i <= statement_end_from(sql, cursor, i) <= sql.len(),
    decreases sql.len() - i,
{
    if i < sql.len() && !is_statement_end(sql, cursor, i) {
        lemma_end_bounds(sql, cursor, i + 1);
    }
}

/// Between the start of the statement around a cursor and the cursor there
/// is no statement-ending `;`: the statement starts after the last one.
pub proof fn lemma_no_statement_end_before_cursor(sql: Seq<char>, cursor: int, j: int)
    requires
        0 <= cursor <= sql.len(),
        statement_start_spec(sql, cursor) <= j < cursor,
    ensures
        !is_statement_end(sql, 0, j),
    decreases cursor,
{
    lemma_start_bounds(sql, cursor - 1);
    if j < cursor - 1 {
        lemma_no_statement_end_before_cursor(sql, cursor - 1, j);
    }
}

/// Between the cursor and the end of the statement around it there is no
/// statement-ending `;` for a scan started at the cursor.
pub proof fn lemma_no_statement_end_before_end(sql: Seq<char>, cursor: int, j: int)
    requires
        0 <= cursor <= sql.len(),
        cursor <= j < statement_end_spec(sql, cursor),
    ensures
        !is_statement_end(sql, cursor, j),
{
    lemma_end_scan(sql, cursor, cursor, j);
}

proof fn lemma_end_scan(sql: Seq<char>, cursor: int, i: int, j: int)
    requires
        0 <= i <= j < statement_end_from(sql, cursor, i),
    ensures
        !is_statement_end(sql, cursor, j),
    decreases sql.len() - i,
{
    if i < sql.len() && !is_statement_end(sql, cursor, i) && i < j {
        lemma_end_scan(sql, cursor, i + 1, j);
    }
}

/// A text without any `;` is a single statement, whatever the cursor.
pub proof fn lemma_text_without_semicolon_is_one_statement(sql: Seq<char>, cursor_offset: int)
    requires
        forall|i: int| 0 <= i < sql.len() ==> sql[i] != ';',
    ensures
        current_statement_spec(sql, cursor_offset) == sql,
{
    let k = cursor_position(sql.len() as int, cursor_offset);
    lemma_start_is_zero(sql, k);
    lemma_end_is_len(sql, k, k);
    assert(sql.subrange(0, sql.len() as int) =~= sql);
}

proof fn lemma_start_is_zero(sql: Seq<char>, cursor: int)
    requires
        forall|i: int| 0 <= i < sql.len() ==> sql[i] != ';',
    ensures
        statement_start_spec(sql, cursor) == 0,
    decreases cursor,
{
    if cursor > 0 {
        lemma_start_is_zero(sql, cursor - 1);
    }
}

proof fn lemma_end_is_len(sql: Seq<char>, cursor: int, i: int)
    requires
        forall|i: int| 0 <= i < sql.len() ==> sql[i] != ';',
    ensures
        statement_end_from(sql, cursor, i) == sql.len(),
    decreases sql.len() - i,
{
    if i < sql.len() {
        lemma_end_is_len(sql, cursor, i + 1);
    }
}

/// The character test of `char::is_alphanumeric` (Unicode letters and
/// numbers).
pub uninterp spec fn char_is_alphanumeric(c: char) -> bool;

/// Calls `char::is_alphanumeric`; its result is named by
/// `char_is_alphanumeric`, a function of the character alone.
#[verifier::external_body]
fn is_alphanumeric(c: char) -> (r: bool)
    ensures
        r == char_is_alphanumeric(c),
{
    c.is_alphanumeric()
}

/// Typing a `.`, a `_` or a letter or digit opens completion.
pub fn is_completion_trigger(character: char) -> (r: bool)
    ensures
        r == (character == '.' || character == '_' || char_is_alphanumeric(character)),
{
    character == '.' || character == '_' || is_alphanumeric(character)
}

/// What completion works on: the text before the cursor and the statement
/// around it.
#[derive(Debug)]
pub struct SqlCompletionContext {
    pub before_cursor: String,
    pub full_sql: String,
}

/// The completion context of a buffer holding `sql` with the cursor at
/// character offset `cursor_offset`.
pub fn sql_completion_context(sql: &str, cursor_offset: i32) -> (r: SqlCompletionContext)
    ensures
        r.before_cursor@ == sql@.take(cursor_position(sql@.len() as int, cursor_offset as int)),
        r.full_sql@ == current_statement_spec(sql@, cursor_offset as int),
{
    let chars = chars_of(sql);
    let k = byte_index_for_char_offset(chars.len(), cursor_offset);
    let mut before: Vec<char> = Vec::new();
    let mut i: usize = 0;
    while i < k
        invariant
            k <= chars@.len(),
            i <= k,
            before@ == chars@.take(i as int),
        decreases k - i,
    {
        before.push(chars[i]);
        proof {
            assert(chars@.take(i + 1) =~= chars@.take(i as int).push(chars@[i as int]));
        }
        i = i + 1;
    }
    SqlCompletionContext {
        before_cursor: string_from_chars(&before),
        full_sql: current_statement_sql(sql, cursor_offset),
    }
}

/// The icon of a completion proposal.
pub fn completion_icon_name(kind: CompletionItemKind) -> (r: &'static str)
    ensures
        r@ == (match kind {
            CompletionItemKind::Keyword => "code-symbolic"@,
            CompletionItemKind::Function => "lang-function-symbolic"@,
            CompletionItemKind::Schema => "folder-symbolic"@,
            CompletionItemKind::Table => "table-symbolic"@,
            CompletionItemKind::View => "view-list-symbolic"@,
            CompletionItemKind::MaterializedView => "view-list-symbolic"@,
            CompletionItemKind::Column => "columns-symbolic"@,
        }),
{
    match kind {
        CompletionItemKind::Keyword => "code-symbolic",
        CompletionItemKind::Function => "lang-function-symbolic",
        CompletionItemKind::Schema => "folder-symbolic",
        CompletionItemKind::Table => "table-symbolic",
        CompletionItemKind::View => "view-list-symbolic",
        CompletionItemKind::MaterializedView => "view-list-symbolic",
        CompletionItemKind::Column => "columns-symbolic",
    }
}


/// The text holds no quote, no `--` and no `/*`: nothing in it opens a
/// string, a quoted identifier or a comment.
pub open spec fn plain_sql(sql: Seq<char>) -> bool {
    forall|i: int|
        0 <= i < sql.len() ==> {
            &&& #[trigger] sql[i] != '\''
            &&& sql[i] != '"'
            &&& !(sql[i] == '-' && i + 1 < sql.len() && sql[i + 1] == '-')
            &&& !(sql[i] == '/' && i + 1 < sql.len() && sql[i + 1] == '*')
        }
}

/// In plain text the scanner never leaves plain SQL, wherever it starts.
proof fn lemma_plain_text_stays_plain(sql: Seq<char>, from: int, to: int)
    requires
        plain_sql(sql),
        0 <= from,
        to <= sql.len(),
    ensures
        scan_state(sql, from, to) == SqlScannerState::Normal,
    decreases to - from,
{
    if to > from {
        lemma_plain_text_stays_plain(sql, from, to - 1);
        let c = sql[to - 1];
        assert(c != '\'' && c != '"');
    }
}

/// In text without quotes, `--` or `/*`, every character is read as plain
/// SQL, so every `;` ends a statement, for a scan started anywhere before it.
/// (A single `-` or `/` opens nothing.)
pub proof fn plain_text_semicolons_end_statements(sql: Seq<char>, from: int, i: int)
    requires
        plain_sql(sql),
        0 <= from <= i < sql.len(),
    ensures
        scan_step(sql, i, scan_state(sql, from, i)) == (SqlScannerState::Normal, true),
        is_statement_end(sql, from, i) <==> sql[i] == ';',
{
    lemma_plain_text_stays_plain(sql, from, i);
    let c = sql[i];
    assert(c != '\'' && c != '"');
}

proof fn lemma_plain_start(sql: Seq<char>, cursor: int)
    requires
        plain_sql(sql),
        0 <= cursor <= sql.len(),
    ensures
        ({
            let s = statement_start_spec(sql, cursor);
            &&& 0 <= s <= cursor
            &&& (s == 0 || sql[s - 1] == ';')
            &&& forall|j: int| s <= j < cursor ==> sql[j] != ';'
        }),
    decreases cursor,
{
    if cursor > 0 {
        plain_text_semicolons_end_statements(sql, 0, cursor - 1);
        if !is_statement_end(sql, 0, cursor - 1) {
            lemma_plain_start(sql, cursor - 1);
        }
    }
}

proof fn lemma_plain_end(sql: Seq<char>, cursor: int, i: int)
    requires
        plain_sql(sql),
        0 <= cursor <= i <= sql.len(),
    ensures
        ({
            let e = statement_end_from(sql, cursor, i);
            &&& i <= e <= sql.len()
            &&& (e == sql.len() || sql[e] == ';')
            &&& forall|j: int| i <= j < e ==> sql[j] != ';'
        }),
    decreases sql.len() - i,
{
    if i < sql.len() {
        plain_text_semicolons_end_statements(sql, cursor, i);
        if !is_statement_end(sql, cursor, i) {
            lemma_plain_end(sql, cursor, i + 1);
        }
    }
}

/// In text without quotes, `--` or `/*`, the statement around the cursor is
/// exactly the text between the last `;` before the cursor (or the start)
/// and the first `;` at or after it (or the end).
pub proof fn plain_text_statement_is_between_semicolons(sql: Seq<char>, cursor: int)
    requires
        plain_sql(sql),
        0 <= cursor <= sql.len(),
    ensures
        ({
            let s = statement_start_spec(sql, cursor);
            let e = statement_end_spec(sql, cursor);
            &&& 0 <= s <= cursor <= e <= sql.len()
            &&& (s == 0 || sql[s - 1] == ';')
            &&& (e == sql.len() || sql[e] == ';')
            &&& forall|j: int| s <= j < e ==> sql[j] != ';'
            &&& current_statement_spec(sql, cursor) == sql.subrange(s, e)
        }),
{
    lemma_plain_start(sql, cursor);
    lemma_plain_end(sql, cursor, cursor);
}


/// Once the scanner is in `state` at `i`, it stays there up to `j` as long as
/// no character in `i..j` can end that state.
proof fn lemma_span_stays_open(sql: Seq<char>, from: int, i: int, j: int, state: SqlScannerState, closer: char)
    requires
        0 <= from <= i <= j <= sql.len(),
        scan_state(sql, from, i) == state,
        state == SqlScannerState::SingleQuotedString && closer == '\''
            || state == SqlScannerState::DoubleQuotedIdentifier && closer == '"'
            || state == SqlScannerState::LineComment && closer == '\n'
            || state == SqlScannerState::BlockComment && closer == '/',
        forall|k: int| i <= k < j ==> sql[k] != closer,
    ensures
        scan_state(sql, from, j) == state,
        forall|k: int| i <= k < j ==> !is_statement_end(sql, from, k),
    decreases j - i,
{
    if j > i {
        lemma_span_stays_open(sql, from, i, j - 1, state, closer);
        assert(sql[j - 1] != closer);
        assert forall|k: int| i <= k < j implies !is_statement_end(sql, from, k) by {
            if k == j - 1 {
                assert(scan_state(sql, from, k) == state);
            }
        }
    }
}

/// A `;` inside a quoted span or a comment ends nothing: after a `'`, a `"`,
/// a `--` or a `/*` read in plain SQL at `i`, no character up to the next
/// matching quote, the next line break or the next `/` ends a statement.
pub proof fn semicolons_in_strings_and_comments_end_nothing(sql: Seq<char>, from: int, i: int, j: int)
    requires
        0 <= from <= i < j <= sql.len(),
        scan_state(sql, from, i) == SqlScannerState::Normal,
    ensures
        sql[i] == '\'' && (forall|k: int| i < k < j ==> sql[k] != '\'') ==> forall|k: int|
            i <= k < j ==> !is_statement_end(sql, from, k),
        sql[i] == '"' && (forall|k: int| i < k < j ==> sql[k] != '"') ==> forall|k: int|
            i <= k < j ==> !is_statement_end(sql, from, k),
        sql[i] == '-' && i + 1 < sql.len() && sql[i + 1] == '-' && (forall|k: int|
            i < k < j ==> sql[k] != '\n') ==> forall|k: int|
            i <= k < j ==> !is_statement_end(sql, from, k),
        sql[i] == '/' && i + 1 < sql.len() && sql[i + 1] == '*' && (forall|k: int|
            i < k < j ==> sql[k] != '/') ==> forall|k: int|
            i <= k < j ==> !is_statement_end(sql, from, k),
{
    let c = sql[i];
    if c == '\'' && (forall|k: int| i < k < j ==> sql[k] != '\'') {
        assert(scan_state(sql, from, i + 1) == SqlScannerState::SingleQuotedString);
        lemma_span_stays_open(sql, from, i + 1, j, SqlScannerState::SingleQuotedString, '\'');
    }
    if c == '"' && (forall|k: int| i < k < j ==> sql[k] != '"') {
        assert(scan_state(sql, from, i + 1) == SqlScannerState::DoubleQuotedIdentifier);
        lemma_span_stays_open(sql, from, i + 1, j, SqlScannerState::DoubleQuotedIdentifier, '"');
    }
    if c == '-' && i + 1 < sql.len() && sql[i + 1] == '-' && (forall|k: int|
        i < k < j ==> sql[k] != '\n') {
        assert(scan_state(sql, from, i + 1) == SqlScannerState::LineComment);
        lemma_span_stays_open(sql, from, i + 1, j, SqlScannerState::LineComment, '\n');
    }
    if c == '/' && i + 1 < sql.len() && sql[i + 1] == '*' && (forall|k: int|
        i < k < j ==> sql[k] != '/') {
        assert(scan_state(sql, from, i + 1) == SqlScannerState::BlockComment);
        lemma_span_stays_open(sql, from, i + 1, j, SqlScannerState::BlockComment, '/');
    }
}

} // verus!
