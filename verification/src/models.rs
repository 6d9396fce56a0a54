//! The values that the library reasons about: database objects, table
//! columns and cells, sort orders and query results.

use vstd::prelude::*;

verus! {

/// Whether a relation is a table or a view.
#[derive(Clone, Copy, Debug, PartialEq, Eq, Structural)]
pub enum DatabaseObjectKind {
    Table,
    View,
}

/// A table or view in a schema.
#[derive(Clone, Debug)]
pub struct DatabaseObject {
    pub schema: String,
    pub name: String,
    pub kind: DatabaseObjectKind,
}

/// Two objects name the same relation of the same kind.
pub open spec fn same_object(a: DatabaseObject, b: DatabaseObject) -> bool {
    &&& a.schema@ == b.schema@
    &&& a.name@ == b.name@
    &&& a.kind == b.kind
}

/// `schema.name`.
pub open spec fn qualified_name_spec(object: DatabaseObject) -> Seq<char> {
    object.schema@ + seq!['.'] + object.name@
}

impl DatabaseObject {
    /// The schema-qualified name, `schema.name`.
    pub fn qualified_name(&self) -> (r: String)
        ensures
            r@ == qualified_name_spec(*self),
    {
        let mut r = self.schema.clone();
        r.append(".");
        proof {
            reveal_strlit(".");
        }
        r.append(self.name.as_str());
        r
    }

    /// A copy of the object.
    pub fn copied(&self) -> (r: DatabaseObject)
        ensures
            r == *self,
    {
        DatabaseObject { schema: self.schema.clone(), name: self.name.clone(), kind: self.kind }
    }

    /// Whether `self` and `other` name the same relation of the same kind.
    pub fn same_as(&self, other: &DatabaseObject) -> (r: bool)
        ensures
            r == same_object(*self, *other),
    {
        self.schema == other.schema && self.name == other.name && self.kind == other.kind
    }
}

/// How the values of a column are displayed and edited.
#[derive(Clone, Copy, Debug, PartialEq, Eq, Structural)]
pub enum ColumnTypeGroup {
    Boolean,
    Binary,
    DateTime,
    Json,
    Numeric,
    Text,
    Other,
}

/// A column of a browsed table.
#[derive(Clone, Debug)]
pub struct TableColumn {
    pub name: String,
    pub display_type: String,
    pub sql_type_name: String,
    pub enum_values: Vec<String>,
    pub type_group: ColumnTypeGroup,
    pub is_array: bool,
    pub is_range: bool,
    pub is_nullable: bool,
    pub is_primary_key: bool,
    pub has_default: bool,
    pub is_identity: bool,
    pub is_generated: bool,
    pub ordinal_position: i32,
}

/// Values of the column can be written back as text: every type group but
/// binary data.
pub open spec fn editable_value_type(column: TableColumn) -> bool {
    column.type_group != ColumnTypeGroup::Binary
}

/// The column takes a value in an insert: it is neither generated nor an
/// identity, and its values can be written as text.
pub open spec fn insertable(column: TableColumn) -> bool {
    !column.is_generated && !column.is_identity && editable_value_type(column)
}

/// An insert must supply a value for the column: it accepts no NULL, has no
/// default and is neither generated nor an identity.
pub open spec fn required_for_insert(column: TableColumn) -> bool {
    !column.is_nullable && !column.has_default && !column.is_generated && !column.is_identity
}

/// The column's values are shown as PostgreSQL's text form: arrays, ranges
/// and enumerations.
pub open spec fn text_display(column: TableColumn) -> bool {
    column.is_array || column.is_range || column.enum_values@.len() > 0
}

impl TableColumn {
    pub fn is_editable_value_type(&self) -> (r: bool)
        ensures
            r == editable_value_type(*self),
    {
        match self.type_group {
            ColumnTypeGroup::Binary => false,
            _ => true,
        }
    }

    pub fn is_insertable(&self) -> (r: bool)
        ensures
            r == insertable(*self),
    {
        !self.is_generated && !self.is_identity && self.is_editable_value_type()
    }

    pub fn is_required_for_insert(&self) -> (r: bool)
        ensures
            r == required_for_insert(*self),
    {
        !self.is_nullable && !self.has_default && !self.is_generated && !self.is_identity
    }

    pub fn uses_text_display(&self) -> (r: bool)
        ensures
            r == text_display(*self),
    {
        self.is_array || self.is_range || self.enum_values.len() > 0
    }
}

/// Two columns agree in every field.
pub open spec fn same_column(a: TableColumn, b: TableColumn) -> bool {
    &&& a.name@ == b.name@
    &&& a.display_type@ == b.display_type@
    &&& a.sql_type_name@ == b.sql_type_name@
    &&& a.enum_values@.len() == b.enum_values@.len()
    &&& forall|i: int|
        0 <= i < a.enum_values@.len() ==> #[trigger] a.enum_values@[i]@ == b.enum_values@[i]@
    &&& a.type_group == b.type_group
    &&& a.is_array == b.is_array
    &&& a.is_range == b.is_range
    &&& a.is_nullable == b.is_nullable
    &&& a.is_primary_key == b.is_primary_key
    &&& a.has_default == b.has_default
    &&& a.is_identity == b.is_identity
    &&& a.is_generated == b.is_generated
    &&& a.ordinal_position == b.ordinal_position
}

/// Two column lists agree column by column.
pub open spec fn same_columns(a: Seq<TableColumn>, b: Seq<TableColumn>) -> bool {
    &&& a.len() == b.len()
    &&& forall|i: int| 0 <= i < a.len() ==> same_column(#[trigger] a[i], b[i])
}

/// Whether two lists of strings hold the same strings in the same order.
pub fn same_strings(a: &Vec<String>, b: &Vec<String>) -> (r: bool)
    ensures
        r == (a@.len() == b@.len() && forall|i: int| 0 <= i < a@.len() ==> #[trigger] a@[i]@ == b@[i]@),
{
    if a.len() != b.len() {
        return false;
    }
    let mut i: usize = 0;
    while i < a.len()
        invariant
            i <= a.len() == b.len(),
            forall|j: int| 0 <= j < i ==> #[trigger] a@[j]@ == b@[j]@,
        decreases a.len() - i,
    {
        if a[i] != b[i] {
            return false;
        }
        i = i + 1;
    }
    true
}

impl TableColumn {
    /// Whether the two columns agree in every field.
    pub fn same_as(&self, other: &TableColumn) -> (r: bool)
        ensures
            r == same_column(*self, *other),
    {
        self.name == other.name && self.display_type == other.display_type && self.sql_type_name
            == other.sql_type_name && same_strings(&self.enum_values, &other.enum_values)
            && self.type_group == other.type_group && self.is_array == other.is_array
            && self.is_range == other.is_range && self.is_nullable == other.is_nullable
            && self.is_primary_key == other.is_primary_key && self.has_default == other.has_default
            && self.is_identity == other.is_identity && self.is_generated == other.is_generated
            && self.ordinal_position == other.ordinal_position
    }
}

/// Whether the two column lists agree column by column.
pub fn same_column_lists(a: &[TableColumn], b: &[TableColumn]) -> (r: bool)
    ensures
        r == same_columns(a@, b@),
{
    if a.len() != b.len() {
        return false;
    }
    let mut i: usize = 0;
    while i < a.len()
        invariant
            i <= a.len() == b.len(),
            forall|j: int| 0 <= j < i ==> same_column(#[trigger] a@[j], b@[j]),
        decreases a.len() - i,
    {
        if !a[i].same_as(&b[i]) {
            return false;
        }
        i = i + 1;
    }
    true
}

/// A cell of a browsed table: its text, or NULL.
#[derive(Clone, Debug)]
pub struct TableCell {
    pub value: String,
    pub is_null: bool,
}

impl TableCell {
    /// A cell holding `value`.
    pub fn new(value: String) -> (r: TableCell)
        ensures
            r.value == value,
            !r.is_null,
    {
        TableCell { value, is_null: false }
    }

    /// A NULL cell; its text is empty.
    pub fn null() -> (r: TableCell)
        ensures
            r.is_null,
            r.value@ == Seq::<char>::empty(),
    {
        TableCell { value: String::new(), is_null: true }
    }
}

/// What an insert writes into one column.
#[derive(Clone, Debug, PartialEq, Eq)]
pub enum TableInsertValue {
    Default,
    Null,
    Value(String),
}

/// Sort direction of a column.
#[derive(Clone, Copy, Debug, PartialEq, Eq, Structural)]
pub enum SortDirection {
    Ascending,
    Descending,
}

/// The column that a page is sorted by, and the direction.
#[derive(Clone, Debug)]
pub struct TableSort {
    pub column_name: String,
    pub direction: SortDirection,
}

impl TableSort {
    pub fn new(column_name: String, direction: SortDirection) -> (r: TableSort)
        ensures
            r.column_name == column_name,
            r.direction == direction,
    {
        TableSort { column_name, direction }
    }
}

/// Two sort orders name the same column and direction.
pub open spec fn same_sort(a: Option<TableSort>, b: Option<TableSort>) -> bool {
    match (a, b) {
        (None, None) => true,
        (Some(x), Some(y)) => x.column_name@ == y.column_name@ && x.direction == y.direction,
        _ => false,
    }
}

/// The fewest rows a query tab may be set to fetch.
pub const MIN_QUERY_RESULT_ROW_LIMIT: usize = 1;

/// The most rows a query tab may be set to fetch.
pub const MAX_QUERY_RESULT_ROW_LIMIT: usize = 100000;

/// The rows a new query tab fetches.
pub const DEFAULT_QUERY_RESULT_ROW_LIMIT: usize = 1000;

/// The rows that a query returned.
#[derive(Clone, Debug)]
pub struct QueryResult {
    pub columns: Vec<String>,
    pub rows: Vec<Vec<String>>,
    pub row_limit: Option<usize>,
    pub row_limit_reached: bool,
}

/// One page of a browsed table.
#[derive(Clone, Debug)]
pub struct TablePage {
    pub object: DatabaseObject,
    pub columns: Vec<TableColumn>,
    pub rows: Vec<Vec<TableCell>>,
    pub offset: u32,
    pub has_next_page: bool,
}

/// What running a statement gave: rows, or a count of affected rows.
#[derive(Clone, Debug)]
pub enum QueryExecutionResult {
    Rows(QueryResult),
    AffectedRows(u64),
}

/// How an identity column generates its values.
#[derive(Clone, Copy, Debug, PartialEq, Eq, Structural)]
pub enum TableColumnIdentity {
    Always,
    ByDefault,
}

/// A column as shown in the structure view.
#[derive(Clone, Debug)]
pub struct TableStructureColumn {
    pub name: String,
    pub data_type: String,
    pub sql_type_name: String,
    pub is_nullable: bool,
    pub default_expression: Option<String>,
    pub is_primary_key: bool,
    pub identity: Option<TableColumnIdentity>,
    pub generated: Option<String>,
}

/// An index as shown in the structure view.
#[derive(Clone, Debug)]
pub struct TableIndex {
    pub name: String,
    pub method: String,
    pub is_primary: bool,
    pub is_unique: bool,
    pub is_valid: bool,
    pub predicate: Option<String>,
}

/// The kinds of completion proposals.
#[derive(Clone, Copy, Debug, PartialEq, Eq, Structural)]
pub enum CompletionItemKind {
    Keyword,
    Function,
    Schema,
    Table,
    View,
    MaterializedView,
    Column,
}

/// What a structure action works on.
#[derive(Clone, Copy, Debug, PartialEq, Eq, Structural)]
pub enum StructureActionKind {
    Column,
    Index,
    Constraint,
    ForeignKey,
    Trigger,
}

/// Whether a drop also drops what depends on the item.
#[derive(Clone, Copy, Debug, PartialEq, Eq, Structural)]
pub enum StructureDropMode {
    Restrict,
    Cascade,
}

/// An item of a table's structure that can be renamed or dropped.
#[derive(Clone, Debug)]
pub struct StructureActionTarget {
    pub table: DatabaseObject,
    pub kind: StructureActionKind,
    pub name: String,
    pub editable: bool,
}

impl StructureActionTarget {
    /// A copy of the target.
    pub fn copied(&self) -> (r: StructureActionTarget)
        ensures
            r == *self,
    {
        StructureActionTarget {
            table: self.table.copied(),
            kind: self.kind,
            name: self.name.clone(),
            editable: self.editable,
        }
    }
}

/// The actions offered on a table or view in the sidebar.
#[derive(Clone, Copy, Debug, PartialEq, Eq, Structural)]
pub enum ObjectAction {
    Rename,
    Truncate,
    Delete,
}

/// The field separator of an exported CSV file.
#[derive(Clone, Copy, Debug, PartialEq, Eq, Structural)]
pub enum CsvDelimiter {
    Comma,
    Semicolon,
    Tab,
}

/// A query that was run, with its time in seconds since the epoch.
#[derive(Clone, Debug)]
pub struct QueryHistoryEntry {
    pub sql: String,
    pub executed_at: i64,
}

/// A connection saved on the start screen.
#[derive(Clone, Debug)]
pub struct SavedConnection {
    pub id: String,
    pub name: String,
    pub host: String,
    pub port: u16,
    pub username: String,
    pub database: String,
    pub save_password: bool,
}

} // verus!
