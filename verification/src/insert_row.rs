//! Building insert requests: the modes a column offers, restoring a dialog
//! from saved values, and duplicating an existing row.

use vstd::prelude::*;
use crate::i18n::{tr, translated};
use crate::models::{
    ColumnTypeGroup, DatabaseObject, TableCell, TableColumn, TableInsertValue, editable_value_type,
    insertable, required_for_insert, same_column_lists, same_columns, same_object, text_display,
};
use crate::text::{same_text, to_ascii_lowercase, ascii_lower_seq};

verus! {

/// What the insert dialog writes into a column.
#[derive(Clone, Copy, Debug, PartialEq, Eq, Structural)]
pub enum InsertMode {
    Value,
    Null,
    Default,
}

/// Whether a request inserts a new row or a copy of a selected one.
#[derive(Clone, Copy, Debug, PartialEq, Eq, Structural)]
pub enum InsertRowKind {
    Insert,
    Duplicate,
}

/// A row to insert, with the table and columns it was prepared for.
#[derive(Clone, Debug)]
pub struct InsertRowRequest {
    pub kind: InsertRowKind,
    pub object: DatabaseObject,
    pub columns: Vec<TableColumn>,
    pub values: Vec<TableInsertValue>,
}

/// What the user chose for one insertable column: its index among the
/// table's columns, the mode and the text typed or picked.
#[derive(Clone, Debug)]
pub struct InsertColumnInput {
    pub column_index: usize,
    pub mode: InsertMode,
    pub value: String,
}

pub open spec fn mode_of_value(value: TableInsertValue) -> InsertMode {
    match value {
        TableInsertValue::Default => InsertMode::Default,
        TableInsertValue::Null => InsertMode::Null,
        TableInsertValue::Value(_) => InsertMode::Value,
    }
}

/// The mode that restores a saved value.
pub fn insert_mode_for_value(value: &TableInsertValue) -> (r: InsertMode)
    ensures
        r == mode_of_value(*value),
{
    match value {
        TableInsertValue::Default => InsertMode::Default,
        TableInsertValue::Null => InsertMode::Null,
        TableInsertValue::Value(_) => InsertMode::Value,
    }
}

/// The text of a saved value, when it is one.
pub fn insert_value_text(value: Option<&TableInsertValue>) -> (r: Option<&str>)
    ensures
        match value {
            Some(TableInsertValue::Value(text)) => r is Some && r->0@ == text@,
            _ => r is None,
        },
{
    match value {
        Some(TableInsertValue::Value(text)) => Some(text.as_str()),
        Some(TableInsertValue::Default) | Some(TableInsertValue::Null) | None => None,
    }
}

/// The entry of the `false`/`true` choice that restores a saved value: 1 for
/// the text `true`, 0 otherwise.
pub fn boolean_selection(value: Option<&TableInsertValue>) -> (r: u32)
    ensures
        r == (match value {
            Some(TableInsertValue::Value(text)) => if text@ == "true"@ {
                1u32
            } else {
                0u32
            },
            _ => 0u32,
        }),
{
    match insert_value_text(value) {
        Some(text) => {
            if same_text(text, "true") {
                1
            } else {
                0
            }
        },
        None => 0,
    }
}

/// A submitted request still fits the open table: same object, same columns.
pub fn insert_request_matches(
    object: Option<&DatabaseObject>,
    columns: &[TableColumn],
    request: &InsertRowRequest,
) -> (r: bool)
    ensures
        r == (object is Some && same_object(*object->0, request.object) && same_columns(
            columns@,
            request.columns@,
        )),
{
    match object {
        Some(object) => object.same_as(&request.object) && same_column_lists(
            columns,
            request.columns.as_slice(),
        ),
        None => false,
    }
}

/// The modes a column offers, in the order shown: a value, then NULL when the
/// column accepts it, then DEFAULT when it has one.
pub open spec fn mode_choices_spec(column: TableColumn) -> Seq<InsertMode> {
    seq![InsertMode::Value] + (if column.is_nullable {
        seq![InsertMode::Null]
    } else {
        Seq::empty()
    }) + (if column.has_default {
        seq![InsertMode::Default]
    } else {
        Seq::empty()
    })
}

/// The modes a column offers.
pub fn mode_choices(column: &TableColumn) -> (r: Vec<InsertMode>)
    ensures
        r@ == mode_choices_spec(*column),
{
    let mut modes = vec![InsertMode::Value];
    if column.is_nullable {
        modes.push(InsertMode::Null);
    }
    if column.has_default {
        modes.push(InsertMode::Default);
    }
    assert(modes@ =~= mode_choices_spec(*column));
    modes
}

/// The position of `mode` in `modes`, if it is there.
pub fn mode_position(modes: &Vec<InsertMode>, mode: InsertMode) -> (r: Option<usize>)
    ensures
        match r {
            Some(i) => i < modes@.len() && modes@[i as int] == mode && forall|j: int|
                0 <= j < i ==> modes@[j] != mode,
            None => forall|j: int| 0 <= j < modes@.len() ==> modes@[j] != mode,
        },
{
    let mut i: usize = 0;
    while i < modes.len()
        invariant
            i <= modes.len(),
            forall|j: int| 0 <= j < i ==> modes@[j] != mode,
        decreases modes.len() - i,
    {
        if modes[i] == mode {
            return Some(i);
        }
        i = i + 1;
    }
    None
}

/// The first position of `mode` in `modes`, or `fallback`.
pub open spec fn position_or(modes: Seq<InsertMode>, mode: InsertMode, fallback: int) -> int {
    if exists|j: int| 0 <= j < modes.len() && modes[j] == mode {
        choose|j: int|
            0 <= j < modes.len() && modes[j] == mode && forall|k: int|
                0 <= k < j ==> modes[k] != mode
    } else {
        fallback
    }
}

/// The mode shown first when the dialog opens empty: DEFAULT when the column
/// has a default, else NULL when it accepts NULL, else a value.
pub open spec fn default_mode_spec(column: TableColumn) -> InsertMode {
    if column.has_default {
        InsertMode::Default
    } else if column.is_nullable {
        InsertMode::Null
    } else {
        InsertMode::Value
    }
}

/// The mode selected when the dialog opens for `column`: the mode of the
/// saved value when the column offers it, else the default mode.
pub open spec fn initial_mode_spec(column: TableColumn, initial: Option<TableInsertValue>) -> InsertMode {
    match initial {
        Some(v) => if mode_choices_spec(column).contains(mode_of_value(v)) {
            mode_of_value(v)
        } else {
            default_mode_spec(column)
        },
        None => default_mode_spec(column),
    }
}

/// The index, among the offered modes, selected when the dialog opens.
pub fn initial_mode_index(column: &TableColumn, initial_value: Option<&TableInsertValue>) -> (r:
    usize)
    ensures
        r < mode_choices_spec(*column).len(),
        mode_choices_spec(*column)[r as int] == initial_mode_spec(
            *column,
            match initial_value {
                Some(v) => Some(*v),
                None => None,
            },
        ),
{
    let modes = mode_choices(column);
    proof {
        if column.has_default {
            assert(modes@[modes@.len() - 1] == InsertMode::Default);
        }
        if column.is_nullable {
            assert(modes@[1] == InsertMode::Null);
        }
    }
    let default_mode = if column.has_default {
        match mode_position(&modes, InsertMode::Default) {
            Some(i) => i,
            None => 0,
        }
    } else if column.is_nullable {
        match mode_position(&modes, InsertMode::Null) {
            Some(i) => i,
            None => 0,
        }
    } else {
        0
    };
    assert(modes@[default_mode as int] == default_mode_spec(*column));
    match initial_value {
        Some(value) => {
            let mode = insert_mode_for_value(value);
            match mode_position(&modes, mode) {
                Some(i) => {
                    assert(modes@.contains(mode));
                    i
                },
                None => {
                    assert(!modes@.contains(mode));
                    default_mode
                },
            }
        },
        None => default_mode,
    }
}

/// The mode at a selected position of the offered modes; a value when the
/// position is out of range.
pub fn insert_mode_at(modes: &Vec<InsertMode>, selected: u32) -> (r: InsertMode)
    ensures
        r == (if (selected as int) < modes@.len() {
            modes@[selected as int]
        } else {
            InsertMode::Value
        }),
{
    let index = selected as usize;
    if index < modes.len() {
        modes[index]
    } else {
        InsertMode::Value
    }
}

/// The insert can be submitted: no column that needs a value is left out,
/// and every input names one of the columns.
pub open spec fn insert_values_valid_spec(columns: Seq<TableColumn>, inputs: Seq<InsertColumnInput>) -> bool {
    &&& forall|i: int|
        0 <= i < columns.len() ==> !(!insertable(#[trigger] columns[i]) && required_for_insert(
            columns[i],
        ))
    &&& forall|i: int| 0 <= i < inputs.len() ==> #[trigger] inputs[i].column_index < columns.len()
}

/// Whether the insert dialog may be submitted.
pub fn insert_values_are_valid(columns: &[TableColumn], inputs: &[InsertColumnInput]) -> (r: bool)
    ensures
        r == insert_values_valid_spec(columns@, inputs@),
{
    let mut i: usize = 0;
    while i < columns.len()
        invariant
            i <= columns.len(),
            forall|j: int|
                0 <= j < i ==> !(!insertable(#[trigger] columns@[j]) && required_for_insert(
                    columns@[j],
                )),
        decreases columns.len() - i,
    {
        if !columns[i].is_insertable() && columns[i].is_required_for_insert() {
            return false;
        }
        i = i + 1;
    }
    let mut k: usize = 0;
    while k < inputs.len()
        invariant
            k <= inputs.len(),
            forall|j: int| 0 <= j < k ==> #[trigger] inputs@[j].column_index < columns@.len(),
        decreases inputs.len() - k,
    {
        if inputs[k].column_index >= columns.len() {
            return false;
        }
        k = k + 1;
    }
    true
}

/// What an input writes into its column.
pub open spec fn input_value(input: InsertColumnInput) -> TableInsertValue {
    match input.mode {
        InsertMode::Value => TableInsertValue::Value(input.value),
        InsertMode::Null => TableInsertValue::Null,
        InsertMode::Default => TableInsertValue::Default,
    }
}

/// The index of the last input, among the first `n`, that names column `c`.
pub open spec fn last_input_for(inputs: Seq<InsertColumnInput>, n: int, c: int) -> Option<int>
    decreases n,
{
    if n <= 0 {
        None
    } else if inputs[n - 1].column_index == c {
        Some(n - 1)
    } else {
        last_input_for(inputs, n - 1, c)
    }
}

/// The value an insert writes into column `c`: that of the last input naming
/// the column, or DEFAULT when none does.
pub open spec fn insert_value_for(inputs: Seq<InsertColumnInput>, c: int) -> TableInsertValue {
    match last_input_for(inputs, inputs.len() as int, c) {
        Some(i) => input_value(inputs[i]),
        None => TableInsertValue::Default,
    }
}

/// The values of the row to insert, one per column.
pub fn insert_values(columns: &[TableColumn], inputs: &[InsertColumnInput]) -> (r: Vec<TableInsertValue>)
    requires
        forall|i: int| 0 <= i < inputs@.len() ==> #[trigger] inputs@[i].column_index < columns@.len(),
    ensures
        r@.len() == columns@.len(),
        forall|c: int| 0 <= c < r@.len() ==> #[trigger] r@[c] == insert_value_for(inputs@, c),
{
    let mut values: Vec<TableInsertValue> = Vec::new();
    let mut c: usize = 0;
    while c < columns.len()
        invariant
            c <= columns.len(),
            values@.len() == c,
            forall|j: int| 0 <= j < c ==> values@[j] == TableInsertValue::Default,
        decreases columns.len() - c,
    {
        values.push(TableInsertValue::Default);
        c = c + 1;
    }
    let mut k: usize = 0;
    while k < inputs.len()
        invariant
            k <= inputs.len(),
            values@.len() == columns@.len(),
            forall|i: int| 0 <= i < inputs@.len() ==> #[trigger] inputs@[i].column_index < columns@.len(),
            forall|j: int|
                0 <= j < values@.len() ==> #[trigger] values@[j] == match last_input_for(
                    inputs@,
                    k as int,
                    j,
                ) {
                    Some(i) => input_value(inputs@[i]),
                    None => TableInsertValue::Default,
                },
        decreases inputs.len() - k,
    {
        let input = &inputs[k];
        let value = match input.mode {
            InsertMode::Value => TableInsertValue::Value(input.value.clone()),
            InsertMode::Null => TableInsertValue::Null,
            InsertMode::Default => TableInsertValue::Default,
        };
        assert(value == input_value(inputs@[k as int]));
        values.set(input.column_index, value);
        k = k + 1;
    }
    values
}

/// The column needs no copied value: the database fills it in (identity,
/// generated, or a primary key with a default).
pub open spec fn filled_by_database(column: TableColumn) -> bool {
    column.is_identity || column.is_generated || (column.is_primary_key && column.has_default)
}

/// Text of the column survives being read back and inserted again: the type
/// is not PostgreSQL's internal `char`, and the values are shown as text or
/// are booleans, dates and times, numbers or text.
pub open spec fn round_trip_safe(column: TableColumn) -> bool {
    &&& ascii_lower_seq(column.sql_type_name@) != "char"@
    &&& (text_display(column) || column.type_group == ColumnTypeGroup::Boolean
        || column.type_group == ColumnTypeGroup::DateTime || column.type_group
        == ColumnTypeGroup::Numeric || column.type_group == ColumnTypeGroup::Text)
}

/// Whether copied text of the column can be inserted again unchanged.
pub fn duplicate_value_is_round_trip_safe(column: &TableColumn) -> (r: bool)
    ensures
        r == round_trip_safe(*column),
{
    let lowered = to_ascii_lowercase(column.sql_type_name.as_str());
    if same_text(lowered.as_str(), "char") {
        return false;
    }
    column.uses_text_display() || match column.type_group {
        ColumnTypeGroup::Boolean | ColumnTypeGroup::DateTime | ColumnTypeGroup::Numeric
        | ColumnTypeGroup::Text => true,
        _ => false,
    }
}

/// One cell can be carried into a duplicate of its row.
pub open spec fn cell_duplicable(column: TableColumn, cell: TableCell) -> bool {
    filled_by_database(column) || (insertable(column) && (cell.is_null || round_trip_safe(column)))
}

/// A row can be duplicated: it has one cell per column and each cell can be
/// carried over.
pub open spec fn can_duplicate_spec(columns: Seq<TableColumn>, row: Seq<TableCell>) -> bool {
    &&& columns.len() == row.len()
    &&& forall|i: int| 0 <= i < columns.len() ==> cell_duplicable(#[trigger] columns[i], row[i])
}

/// Whether the row can be duplicated safely.
pub fn can_duplicate_row(columns: &[TableColumn], row: &[TableCell]) -> (r: bool)
    ensures
        r == can_duplicate_spec(columns@, row@),
{
    if columns.len() != row.len() {
        return false;
    }
    let mut i: usize = 0;
    while i < columns.len()
        invariant
            i <= columns.len() == row.len(),
            forall|j: int| 0 <= j < i ==> cell_duplicable(#[trigger] columns@[j], row@[j]),
        decreases columns.len() - i,
    {
        let column = &columns[i];
        let ok = if column.is_identity || column.is_generated || column.is_primary_key
            && column.has_default {
            true
        } else {
            column.is_insertable() && (row[i].is_null || duplicate_value_is_round_trip_safe(
                column,
            ))
        };
        if !ok {
            return false;
        }
        i = i + 1;
    }
    true
}

/// What a duplicate writes into a column: DEFAULT where the database fills
/// the column in, NULL for a NULL cell, and the cell's text otherwise.
pub open spec fn duplicate_value_spec(column: TableColumn, cell: TableCell) -> TableInsertValue {
    if filled_by_database(column) {
        TableInsertValue::Default
    } else if cell.is_null {
        TableInsertValue::Null
    } else {
        TableInsertValue::Value(cell.value)
    }
}

/// A duplicated row carries each cell over as it is, NULL as NULL and text
/// as that text, except in identity and generated columns and in primary
/// keys with a default, which the database fills: a plain default does not
/// make a column take its default.
pub proof fn duplicate_carries_cells_over(column: TableColumn, cell: TableCell)
    ensures
        column.is_identity || column.is_generated || (column.is_primary_key && column.has_default)
            ==> duplicate_value_spec(column, cell) == TableInsertValue::Default,
        !column.is_identity && !column.is_generated && !(column.is_primary_key && column.has_default)
            ==> duplicate_value_spec(column, cell) == (if cell.is_null {
            TableInsertValue::Null
        } else {
            TableInsertValue::Value(cell.value)
        }),
        duplicate_value_spec(column, cell) matches TableInsertValue::Value(v) ==> v == cell.value
            && !cell.is_null,
{
}

/// Duplicating a row keeps, in each column the database does not fill, the
/// row's own cell.
pub proof fn duplicated_row_keeps_its_cells(
    columns: Seq<TableColumn>,
    row: Seq<TableCell>,
    values: Seq<TableInsertValue>,
    i: int,
)
    requires
        values.len() == columns.len(),
        forall|k: int| 0 <= k < values.len() ==> #[trigger] values[k] == duplicate_value_spec(columns[k], row[k]),
        0 <= i < columns.len(),
        !columns[i].is_identity,
        !columns[i].is_generated,
        !(columns[i].is_primary_key && columns[i].has_default),
    ensures
        values[i] == (if row[i].is_null {
            TableInsertValue::Null
        } else {
            TableInsertValue::Value(row[i].value)
        }),
{
    duplicate_carries_cells_over(columns[i], row[i]);
}

/// The values that insert a copy of `row`, or `None` when the row cannot be
/// duplicated safely.
pub fn duplicate_values(columns: &[TableColumn], row: &[TableCell]) -> (r: Option<
    Vec<TableInsertValue>,
>)
    ensures
        r is Some <==> can_duplicate_spec(columns@, row@),
        r matches Some(values) ==> values@.len() == columns@.len() && forall|i: int|
            0 <= i < values@.len() ==> #[trigger] values@[i] == duplicate_value_spec(
                columns@[i],
                row@[i],
            ),
{
    if !can_duplicate_row(columns, row) {
        return None;
    }
    let mut values: Vec<TableInsertValue> = Vec::new();
    let mut i: usize = 0;
    while i < columns.len()
        invariant
            i <= columns.len() == row.len(),
            values@.len() == i,
            forall|j: int|
                0 <= j < i ==> #[trigger] values@[j] == duplicate_value_spec(columns@[j], row@[j]),
        decreases columns.len() - i,
    {
        let column = &columns[i];
        let cell = &row[i];
        let value = if column.is_identity || column.is_generated || column.has_default
            && column.is_primary_key {
            TableInsertValue::Default
        } else if cell.is_null {
            TableInsertValue::Null
        } else {
            TableInsertValue::Value(cell.value.clone())
        };
        values.push(value);
        i = i + 1;
    }
    Some(values)
}

/// The text of the message id that explains why a column takes no value in an insert.
pub open spec fn readonly_reason_text(column: TableColumn) -> Seq<char> {
    if required_for_insert(column) {
        "Required column with unsupported type"@
    } else if column.is_generated {
        "Generated column"@
    } else if column.is_identity {
        "Identity column"@
    } else if !editable_value_type(column) {
        "Unsupported column type"@
    } else {
        "Read-only column"@
    }
}

/// The message that explains why a column takes no value in an insert.
pub fn readonly_reason_msgid(column: &TableColumn) -> (r: &'static str)
    ensures
        r@ == readonly_reason_text(*column),
{
    if column.is_required_for_insert() {
        "Required column with unsupported type"
    } else if column.is_generated {
        "Generated column"
    } else if column.is_identity {
        "Identity column"
    } else if !column.is_editable_value_type() {
        "Unsupported column type"
    } else {
        "Read-only column"
    }
}

/// Why a column takes no value in an insert, translated.
pub fn readonly_reason(column: &TableColumn) -> (r: String)
    ensures
        translated(readonly_reason_text(*column), r@),
{
    tr(readonly_reason_msgid(column))
}

/// The text of the message id of the hint shown in an empty value entry.
pub open spec fn value_placeholder_text(column: TableColumn) -> Seq<char> {
    if required_for_insert(column) {
        "Required value"@
    } else {
        "Value"@
    }
}

/// The hint shown in an empty value entry: a required value, or a value.
pub fn value_placeholder_msgid(column: &TableColumn) -> (r: &'static str)
    ensures
        r@ == value_placeholder_text(*column),
{
    if column.is_required_for_insert() {
        "Required value"
    } else {
        "Value"
    }
}

/// The hint shown in an empty value entry, translated.
pub fn value_placeholder(column: &TableColumn) -> (r: String)
    ensures
        translated(value_placeholder_text(*column), r@),
{
    tr(value_placeholder_msgid(column))
}

/// The note after a column's type: required, or which of DEFAULT and NULL
/// it accepts; none when it accepts neither and is not required.
pub fn column_subtitle_msgid(column: &TableColumn) -> (r: Option<&'static str>)
    ensures
        match r {
            Some(m) => m@ == (if required_for_insert(*column) {
                "Required"@
            } else if column.has_default && column.is_nullable {
                "Default or NULL allowed"@
            } else if column.has_default {
                "Default allowed"@
            } else {
                "NULL allowed"@
            }),
            None => true,
        },
        r is None <==> column_subtitle_msgid_spec_none(*column),
{
    if column.is_required_for_insert() {
        Some("Required")
    } else if column.has_default && column.is_nullable {
        Some("Default or NULL allowed")
    } else if column.has_default {
        Some("Default allowed")
    } else if column.is_nullable {
        Some("NULL allowed")
    } else {
        None
    }
}

/// The line under a column's name: its type, then the translated note, with
/// ` · ` between them.
pub fn column_subtitle(column: &TableColumn) -> (r: String)
    ensures
        column_subtitle_msgid_spec_none(*column) ==> r@ == column.display_type@,
        !column_subtitle_msgid_spec_none(*column) ==> exists|note: Seq<char>|
            #![trigger translated(column_subtitle_text(*column), note)]
            translated(column_subtitle_text(*column), note) && r@ == column.display_type@ + " · "@
                + note,
{
    let mut subtitle = column.display_type.clone();
    match column_subtitle_msgid(column) {
        Some(msgid) => {
            let note = tr(msgid);
            subtitle.append(" · ");
            subtitle.append(note.as_str());
            proof {
                assert(translated(column_subtitle_text(*column), note@));
            }
        },
        None => {},
    }
    subtitle
}

/// The text of the note after a column's type.
pub open spec fn column_subtitle_text(column: TableColumn) -> Seq<char> {
    if required_for_insert(column) {
        "Required"@
    } else if column.has_default && column.is_nullable {
        "Default or NULL allowed"@
    } else if column.has_default {
        "Default allowed"@
    } else {
        "NULL allowed"@
    }
}

/// The column has no note after its type.
pub open spec fn column_subtitle_msgid_spec_none(column: TableColumn) -> bool {
    !required_for_insert(column) && !column.has_default && !column.is_nullable
}

} // verus!
