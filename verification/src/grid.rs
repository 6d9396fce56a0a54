//! The cells of the table grid: what a cell shows, which cells may be
//! edited, and how the cell editor starts.

use vstd::prelude::*;
use crate::models::{
    ColumnTypeGroup, DatabaseObjectKind, TableCell, TableColumn, TablePage, editable_value_type,
};
use crate::text::{ascii_lower_seq, chars_of, string_from_chars, to_ascii_lowercase, same_text};

verus! {

/// The characters a grid cell shows at most.
pub const DISPLAY_CHAR_LIMIT: usize = 256;

/// The characters a cell's tooltip shows at most.
pub const TOOLTIP_CHAR_LIMIT: usize = 2048;

/// `value` cut to `limit` characters and ended with `…` when it is longer.
pub open spec fn ellipsized_spec(value: Seq<char>, limit: nat) -> Seq<char> {
    if value.len() > limit {
        value.take(limit as int).push('…')
    } else {
        value
    }
}

/// The text of a cell or tooltip, cut to `limit` characters.
pub fn truncated(value: &str, limit: usize) -> (r: String)
    ensures
        r@ == ellipsized_spec(value@, limit as nat),
{
    let chars = chars_of(value);
    if chars.len() <= limit {
        return value.to_string();
    }
    let mut out: Vec<char> = Vec::new();
    let mut i: usize = 0;
    while i < limit
        invariant
            i <= limit < chars.len(),
            chars@ == value@,
            out@ == value@.take(i as int),
        decreases limit - i,
    {
        out.push(chars[i]);
        assert(value@.take(i as int).push(value@[i as int]) =~= value@.take(i + 1));
        i = i + 1;
    }
    out.push('…');
    string_from_chars(&out)
}

/// The text a grid cell shows for column `column_index` of a row: the cell's
/// text cut to the display limit, or nothing when the row has no such cell.
pub fn cell_display_text(row: &Vec<TableCell>, column_index: usize) -> (r: String)
    ensures
        r@ == ellipsized_spec(
            if column_index < row@.len() {
                row@[column_index as int].value@
            } else {
                Seq::empty()
            },
            DISPLAY_CHAR_LIMIT as nat,
        ),
{
    if column_index < row.len() {
        truncated(row[column_index].value.as_str(), DISPLAY_CHAR_LIMIT)
    } else {
        proof {
            reveal_strlit("");
        }
        truncated("", DISPLAY_CHAR_LIMIT)
    }
}

/// Cells of a column can be edited from the grid: the page shows a table
/// with a primary key, and the column is not a key and can be written as
/// text.
pub open spec fn column_editable_spec(page: TablePage, index: int) -> bool {
    &&& page.object.kind == DatabaseObjectKind::Table
    &&& exists|i: int| 0 <= i < page.columns@.len() && (#[trigger] page.columns@[i]).is_primary_key
    &&& 0 <= index < page.columns@.len()
    &&& !page.columns@[index].is_primary_key
    &&& editable_value_type(page.columns@[index])
}

/// Whether cells of column `index` can be edited from the grid.
pub fn column_editable(page: &TablePage, index: usize) -> (r: bool)
    ensures
        r == column_editable_spec(*page, index as int),
{
    if page.object.kind != DatabaseObjectKind::Table || index >= page.columns.len() {
        return false;
    }
    let mut has_key = false;
    let mut i: usize = 0;
    while i < page.columns.len()
        invariant
            i <= page.columns.len(),
            has_key == exists|j: int| 0 <= j < i && (#[trigger] page.columns@[j]).is_primary_key,
        decreases page.columns.len() - i,
    {
        if page.columns[i].is_primary_key {
            has_key = true;
        }
        i = i + 1;
    }
    has_key && !page.columns[index].is_primary_key && page.columns[index].is_editable_value_type()
}

/// Rows of a page can be duplicated from the grid when it shows a table.
pub fn rows_duplicable(page: &TablePage) -> (r: bool)
    ensures
        r == (page.object.kind == DatabaseObjectKind::Table),
{
    page.object.kind == DatabaseObjectKind::Table
}

/// The boolean choice that a cell's text selects: 1 (`TRUE`) for `true` or
/// `t` in any ASCII case, 0 (`FALSE`) otherwise.
pub fn cell_boolean_selection(value: &str) -> (r: usize)
    ensures
        r == (if ascii_lower_seq(value@) == "true"@ || ascii_lower_seq(value@) == "t"@ {
            1usize
        } else {
            0usize
        }),
{
    let lowered = to_ascii_lowercase(value);
    if same_text(lowered.as_str(), "true") || same_text(lowered.as_str(), "t") {
        1
    } else {
        0
    }
}

/// The cell editor offers "Set NULL" for nullable columns only.
pub fn cell_editor_offers_null(column: &TableColumn) -> (r: bool)
    ensures
        r == column.is_nullable,
{
    column.is_nullable
}

/// The buttons of the cell editor that submit.
#[derive(Clone, Copy, Debug, PartialEq, Eq, Structural)]
pub enum CellEditorButton {
    /// Store a database NULL.
    SetNull,
    /// Store the editor's value.
    Save,
}

/// An edit of a cell, made on page generation `page_generation`: the new
/// value, or `None` for NULL.
#[derive(Debug)]
pub struct CellEditSubmission {
    pub page_generation: u64,
    pub row_index: usize,
    pub column_index: usize,
    pub value: Option<String>,
}

/// What pressing `button` in the editor opened for the cell at
/// (`row_index`, `column_index`) of page generation `page_generation`
/// submits: NULL for "Set NULL", the editor's value for "Save".
pub fn submit_cell_edit(
    button: CellEditorButton,
    page_generation: u64,
    row_index: usize,
    column_index: usize,
    editor_value: String,
) -> (r: CellEditSubmission)
    ensures
        r.page_generation == page_generation,
        r.row_index == row_index,
        r.column_index == column_index,
        r.value == (match button {
            CellEditorButton::SetNull => None,
            CellEditorButton::Save => Some(editor_value),
        }),
{
    let value = match button {
        CellEditorButton::SetNull => None,
        CellEditorButton::Save => Some(editor_value),
    };
    CellEditSubmission { page_generation, row_index, column_index, value }
}

/// How the cell editor starts: a choice among values with one selected, or
/// a text with its initial content.
#[derive(Debug)]
pub enum CellEditorSetup {
    Choice { values: Vec<String>, selected: usize },
    Text { initial: String },
}

/// The first position of `value` among `values`, or 0.
pub open spec fn position_or_first(values: Seq<String>, value: Seq<char>) -> int {
    if exists|i: int| 0 <= i < values.len() && values[i]@ == value {
        choose|i: int|
            0 <= i < values.len() && values[i]@ == value && forall|j: int|
                0 <= j < i ==> values[j]@ != value
    } else {
        0
    }
}

/// How the editor for a cell starts: booleans as a `FALSE`/`TRUE` choice,
/// enumerations as a choice of their values with the cell's value (or the
/// first) selected, anything else as text (empty for NULL).
pub fn cell_editor_setup(column: &TableColumn, cell: &TableCell) -> (r: CellEditorSetup)
    ensures
        column.type_group == ColumnTypeGroup::Boolean ==> (r matches CellEditorSetup::Choice {
            values,
            selected,
        } && values@.len() == 2 && values@[0]@ == "FALSE"@ && values@[1]@ == "TRUE"@ && selected
            == (if ascii_lower_seq(cell.value@) == "true"@ || ascii_lower_seq(cell.value@)
            == "t"@ {
            1usize
        } else {
            0usize
        })),
        column.type_group != ColumnTypeGroup::Boolean && column.enum_values@.len() > 0 ==> (
        r matches CellEditorSetup::Choice { values, selected } && values@.len()
            == column.enum_values@.len() && (forall|i: int|
            0 <= i < values@.len() ==> #[trigger] values@[i]@ == column.enum_values@[i]@)
            && selected as int == position_or_first(column.enum_values@, cell.value@)),
        column.type_group != ColumnTypeGroup::Boolean && column.enum_values@.len() == 0 ==> (
        r matches CellEditorSetup::Text { initial } && initial@ == (if cell.is_null {
            Seq::<char>::empty()
        } else {
            cell.value@
        })),
{
    if column.type_group == ColumnTypeGroup::Boolean {
        proof {
            reveal_strlit("FALSE");
            reveal_strlit("TRUE");
        }
        let values = vec!["FALSE".to_string(), "TRUE".to_string()];
        return CellEditorSetup::Choice {
            values,
            selected: cell_boolean_selection(cell.value.as_str()),
        };
    }
    if column.enum_values.len() > 0 {
        let mut values: Vec<String> = Vec::new();
        let mut selected: Option<usize> = None;
        let mut i: usize = 0;
        while i < column.enum_values.len()
            invariant
                i <= column.enum_values.len(),
                values@.len() == i,
                forall|k: int| 0 <= k < i ==> #[trigger] values@[k]@ == column.enum_values@[k]@,
                match selected {
                    Some(p) => p < i && column.enum_values@[p as int]@ == cell.value@ && forall|j: int|
                        0 <= j < p ==> column.enum_values@[j]@ != cell.value@,
                    None => forall|j: int| 0 <= j < i ==> column.enum_values@[j]@ != cell.value@,
                },
            decreases column.enum_values.len() - i,
        {
            if selected.is_none() && column.enum_values[i] == cell.value {
                selected = Some(i);
            }
            values.push(column.enum_values[i].clone());
            i = i + 1;
        }
        let chosen = match selected {
            Some(p) => p,
            None => 0,
        };
        proof {
            let vs = column.enum_values@;
            let v = cell.value@;
            match selected {
                Some(p) => {
                    assert(exists|k: int| 0 <= k < vs.len() && vs[k]@ == v);
                    let w = choose|k: int|
                        0 <= k < vs.len() && vs[k]@ == v && forall|j: int| 0 <= j < k ==> vs[j]@ != v;
                    if w < p {
                    } else if w > p {
                        assert(vs[p as int]@ == v);
                    }
                },
                None => {},
            }
        }
        return CellEditorSetup::Choice { values, selected: chosen };
    }
    let initial = if cell.is_null {
        String::new()
    } else {
        cell.value.clone()
    };
    CellEditorSetup::Text { initial }
}

} // verus!
