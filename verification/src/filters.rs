//! The table browser's filters: which filters are shown for the loaded
//! columns, which values they start with, and when they may be applied.
//!
//! The operators a column supports, and whether an operator takes a value,
//! come from the operator model; the functions here take them as given: for
//! each column, the list of its operators (the first is its default).

use vstd::prelude::*;
use crate::actions::failure_notice;
use crate::i18n::{tr, translated};
use crate::models::{ColumnTypeGroup, TableColumn};
use crate::text::{trim, trim_spec};

verus! {

/// A filter operator, by its code, and whether it compares with a value.
#[derive(Clone, Copy, Debug, PartialEq, Eq, Structural)]
pub struct FilterOperator {
    pub code: u32,
    pub needs_value: bool,
}

/// A filter of the browsed table.
#[derive(Clone, Debug)]
pub enum TableFilter {
    /// A comparison on a column.
    Column { column_name: String, operator: FilterOperator, value: Option<String> },
    /// A condition written in SQL.
    CustomSql { expression: String },
}

/// A filter over views.
pub enum FilterView {
    Column { column_name: Seq<char>, operator: FilterOperator, value: Option<Seq<char>> },
    CustomSql { expression: Seq<char> },
}

/// The view of an optional string.
pub open spec fn opt_chars(s: Option<String>) -> Option<Seq<char>> {
    match s {
        Some(t) => Some(t@),
        None => None,
    }
}

/// The view of a filter.
pub open spec fn filter_view(f: TableFilter) -> FilterView {
    match f {
        TableFilter::Column { column_name, operator, value } => FilterView::Column {
            column_name: column_name@,
            operator,
            value: opt_chars(value),
        },
        TableFilter::CustomSql { expression } => FilterView::CustomSql { expression: expression@ },
    }
}

/// The views of filters.
pub open spec fn filter_views(filters: Seq<TableFilter>) -> Seq<FilterView> {
    filters.map_values(|f: TableFilter| filter_view(f))
}

/// The first position in `s` whose element passes `p`.
pub open spec fn first_match<A>(s: Seq<A>, p: spec_fn(A) -> bool) -> Option<int> {
    if exists|i: int| 0 <= i < s.len() && p(s[i]) {
        Some(choose|i: int| 0 <= i < s.len() && p(s[i]) && forall|j: int| 0 <= j < i ==> !p(s[j]))
    } else {
        None
    }
}

/// Some element passes `p` no later than `i`, and the first such one is
/// what `first_match` gives.
proof fn lemma_first_match_at_most<A>(s: Seq<A>, p: spec_fn(A) -> bool, i: int)
    requires
        0 <= i < s.len(),
        p(s[i]),
    ensures
        first_match(s, p) matches Some(m) && 0 <= m <= i && p(s[m]) && forall|j: int|
            0 <= j < m ==> !p(s[j]),
    decreases i,
{
    if exists|j: int| 0 <= j < i && p(s[j]) {
        let j = choose|j: int| 0 <= j < i && p(s[j]);
        lemma_first_match_at_most(s, p, j);
    } else {
        lemma_first_match_is(s, p, i);
    }
}

proof fn lemma_first_match_is<A>(s: Seq<A>, p: spec_fn(A) -> bool, i: int)
    requires
        0 <= i < s.len(),
        p(s[i]),
        forall|j: int| 0 <= j < i ==> !p(s[j]),
    ensures
        first_match(s, p) == Some(i),
{
    let w = choose|k: int| 0 <= k < s.len() && p(s[k]) && forall|j: int| 0 <= j < k ==> !p(s[j]);
    assert(0 <= w < s.len() && p(s[w]) && forall|j: int| 0 <= j < w ==> !p(s[j]));
    if w < i {
        assert(!p(s[w]));
    } else if w > i {
        assert(!p(s[i]));
    }
}

/// The column has this name.
pub open spec fn named(name: Seq<char>) -> spec_fn(TableColumn) -> bool {
    |c: TableColumn| c.name@ == name
}

/// The value a filter starts with for `column` and `operator`: none when the
/// operator takes no value, `true` for booleans, else the first enumerated
/// value if there is one.
pub open spec fn default_value_spec(column: TableColumn, operator: FilterOperator) -> Option<Seq<char>> {
    if !operator.needs_value {
        None
    } else if column.type_group == ColumnTypeGroup::Boolean {
        Some("true"@)
    } else if column.enum_values@.len() > 0 {
        Some(column.enum_values@[0]@)
    } else {
        None
    }
}

/// The value a new or normalized filter starts with.
pub fn default_filter_value(column: &TableColumn, operator: FilterOperator) -> (r: Option<String>)
    ensures
        opt_chars(r) == default_value_spec(*column, operator),
{
    if !operator.needs_value {
        return None;
    }
    if column.type_group == ColumnTypeGroup::Boolean {
        proof {
            reveal_strlit("true");
        }
        return Some("true".to_string());
    }
    if column.enum_values.len() > 0 {
        Some(column.enum_values[0].clone())
    } else {
        None
    }
}

/// Every column has at least one operator.
pub open spec fn operators_cover(columns: Seq<TableColumn>, operators: Seq<Vec<FilterOperator>>) -> bool {
    &&& operators.len() == columns.len()
    &&& forall|i: int| 0 <= i < operators.len() ==> (#[trigger] operators[i])@.len() > 0
}

/// The filter a new filter panel starts with: the first column with its
/// default operator and value; none without columns.
pub fn initial_filter(columns: &Vec<TableColumn>, operators: &Vec<Vec<FilterOperator>>) -> (r:
    Option<TableFilter>)
    requires
        operators_cover(columns@, operators@),
    ensures
        columns@.len() == 0 ==> r is None,
        columns@.len() > 0 ==> (r matches Some(f) && filter_view(f) == (FilterView::Column {
            column_name: columns@[0].name@,
            operator: operators@[0]@[0],
            value: default_value_spec(columns@[0], operators@[0]@[0]),
        })),
{
    if columns.len() == 0 {
        return None;
    }
    let operator = operators[0][0];
    Some(
        TableFilter::Column {
            column_name: columns[0].name.clone(),
            operator,
            value: default_filter_value(&columns[0], operator),
        },
    )
}

/// A filter is incomplete: custom SQL that is blank, or a comparison that
/// needs a value and has none or a blank one.
pub open spec fn incomplete(f: TableFilter) -> bool {
    match f {
        TableFilter::CustomSql { expression } => trim_spec(expression@).len() == 0,
        TableFilter::Column { operator, value, .. } => operator.needs_value && match value {
            None => true,
            Some(v) => trim_spec(v@).len() == 0,
        },
    }
}

fn is_blank(s: &String) -> (r: bool)
    ensures
        r == (trim_spec(s@).len() == 0),
{
    let t = trim(s.as_str());
    t.as_str().is_empty()
}

fn is_incomplete(f: &TableFilter) -> (r: bool)
    ensures
        r == incomplete(*f),
{
    match f {
        TableFilter::CustomSql { expression } => is_blank(expression),
        TableFilter::Column { operator, value, .. } => operator.needs_value && match value {
            None => true,
            Some(v) => is_blank(v),
        },
    }
}

/// Filters may be applied when none is incomplete. Otherwise the first
/// incomplete one is named: a translated note for custom SQL, or a
/// translated note and the column's name.
pub fn validate_filter_values(filters: &Vec<TableFilter>) -> (r: Result<(), String>)
    ensures
        r is Ok <==> forall|i: int| 0 <= i < filters@.len() ==> !incomplete(#[trigger] filters@[i]),
        r is Err ==> ({
            let k = first_match(filters@, |f: TableFilter| incomplete(f))->0;
            &&& (filters@[k] is CustomSql ==> translated("Missing custom SQL filter"@, r->Err_0@))
            &&& (filters@[k] matches TableFilter::Column { column_name, .. } ==> exists|
                note: Seq<char>,
            |
                #![trigger translated("Missing value for filter"@, note)]
                translated("Missing value for filter"@, note) && r->Err_0@ == note + ": "@
                    + column_name@)
        }),
{
    let mut i: usize = 0;
    while i < filters.len()
        invariant
            i <= filters@.len(),
            forall|j: int| 0 <= j < i ==> !incomplete(#[trigger] filters@[j]),
        decreases filters@.len() - i,
    {
        if is_incomplete(&filters[i]) {
            proof {
                lemma_first_match_is(filters@, |f: TableFilter| incomplete(f), i as int);
            }
            return match &filters[i] {
                TableFilter::CustomSql { .. } => Err(tr("Missing custom SQL filter")),
                TableFilter::Column { column_name, .. } => {
                    let note = tr("Missing value for filter");
                    let r = failure_notice(note.as_str(), column_name.as_str());
                    proof {
                        assert(translated("Missing value for filter"@, note@));
                    }
                    Err(r)
                },
            };
        }
        i = i + 1;
    }
    Ok(())
}

/// The position of the first column named `name`.
pub fn column_position(columns: &Vec<TableColumn>, name: &String) -> (r: Option<usize>)
    ensures
        match r {
            Some(i) => first_match(columns@, named(name@)) == Some(i as int) && i < columns@.len(),
            None => first_match(columns@, named(name@)) is None,
        },
{
    let mut i: usize = 0;
    while i < columns.len()
        invariant
            i <= columns@.len(),
            forall|j: int| 0 <= j < i ==> !named(name@)(#[trigger] columns@[j]),
        decreases columns@.len() - i,
    {
        if columns[i].name == *name {
            proof {
                lemma_first_match_is(columns@, named(name@), i as int);
            }
            return Some(i);
        }
        i = i + 1;
    }
    None
}

/// The position shown in the field selector: the filter's column, the first
/// column when it is gone, and past the columns for custom SQL.
pub fn filter_field_index(columns: &Vec<TableColumn>, filter: &TableFilter) -> (r: usize)
    ensures
        r == (match *filter {
            TableFilter::CustomSql { .. } => columns@.len() as int,
            TableFilter::Column { column_name, .. } => match first_match(columns@, named(column_name@)) {
                Some(i) => i,
                None => 0,
            },
        }),
{
    match filter {
        TableFilter::CustomSql { .. } => columns.len(),
        TableFilter::Column { column_name, .. } => match column_position(columns, column_name) {
            Some(i) => i,
            None => 0,
        },
    }
}

/// The position of `operator` among `operators`, or 0.
pub fn operator_index(operators: &Vec<FilterOperator>, operator: FilterOperator) -> (r: usize)
    ensures
        r == (match first_match(operators@, |o: FilterOperator| o == operator) {
            Some(i) => i,
            None => 0,
        }),
{
    let mut i: usize = 0;
    while i < operators.len()
        invariant
            i <= operators@.len(),
            forall|j: int| 0 <= j < i ==> (|o: FilterOperator| o == operator)(#[trigger] operators@[j]) == false,
        decreases operators@.len() - i,
    {
        if operators[i] == operator {
            proof {
                lemma_first_match_is(operators@, |o: FilterOperator| o == operator, i as int);
            }
            return i;
        }
        i = i + 1;
    }
    0
}

/// The position of `value` among the choices, or 0.
pub fn choice_index(values: &Vec<&str>, value: Option<&str>) -> (r: usize)
    ensures
        r == (match value {
            Some(v) => match first_match(values@, |c: &str| c@ == v@) {
                Some(i) => i,
                None => 0,
            },
            None => 0,
        }),
{
    let v = match value {
        Some(v) => v,
        None => {
            return 0;
        },
    };
    let mut i: usize = 0;
    while i < values.len()
        invariant
            i <= values@.len(),
            value == Some(v),
            forall|j: int| 0 <= j < i ==> (|c: &str| c@ == v@)(#[trigger] values@[j]) == false,
        decreases values@.len() - i,
    {
        if crate::text::same_text(values[i], v) {
            proof {
                lemma_first_match_is(values@, |c: &str| c@ == v@, i as int);
            }
            return i;
        }
        i = i + 1;
    }
    0
}

/// A filter as the panel shows it for the loaded columns: custom SQL is
/// kept; a comparison on a column that is gone is dropped; otherwise the
/// operator falls back to the column's first when the column does not
/// support it, and the value is kept (or the default taken) only for an
/// operator that takes one.
pub open spec fn normalized_filter(
    columns: Seq<TableColumn>,
    operators: Seq<Vec<FilterOperator>>,
    f: TableFilter,
) -> Option<FilterView> {
    match f {
        TableFilter::CustomSql { expression } => Some(FilterView::CustomSql { expression: expression@ }),
        TableFilter::Column { column_name, operator, value } => match first_match(
            columns,
            named(column_name@),
        ) {
            None => None,
            Some(c) => {
                let op = if operators[c]@.contains(operator) {
                    operator
                } else {
                    operators[c]@[0]
                };
                Some(
                    FilterView::Column {
                        column_name: columns[c].name@,
                        operator: op,
                        value: if op.needs_value {
                            match value {
                                Some(v) => Some(v@),
                                None => default_value_spec(columns[c], op),
                            }
                        } else {
                            None
                        },
                    },
                )
            },
        },
    }
}

/// The filters as the panel shows them, in order, without the dropped ones.
pub open spec fn normalized_filters_spec(
    columns: Seq<TableColumn>,
    operators: Seq<Vec<FilterOperator>>,
    filters: Seq<TableFilter>,
) -> Seq<FilterView>
    decreases filters.len(),
{
    if filters.len() == 0 {
        Seq::empty()
    } else {
        let rest = normalized_filters_spec(columns, operators, filters.drop_last());
        match normalized_filter(columns, operators, filters.last()) {
            Some(v) => rest.push(v),
            None => rest,
        }
    }
}

/// Normalizing a filter whose view is what normalizing gave yields that view
/// again.
proof fn lemma_normalized_filter_stays(
    columns: Seq<TableColumn>,
    operators: Seq<Vec<FilterOperator>>,
    f: TableFilter,
    g: TableFilter,
)
    requires
        operators_cover(columns, operators),
        normalized_filter(columns, operators, f) == Some(filter_view(g)),
    ensures
        normalized_filter(columns, operators, g) == Some(filter_view(g)),
{
    match f {
        TableFilter::CustomSql { .. } => {},
        TableFilter::Column { column_name, operator, value } => {
            let c = first_match(columns, named(column_name@))->0;
            assert(first_match(columns, named(column_name@)) is Some);
            let i0 = choose|i: int| 0 <= i < columns.len() && named(column_name@)(columns[i]);
            lemma_first_match_at_most(columns, named(column_name@), i0);
            assert(0 <= c < columns.len() && named(column_name@)(columns[c]));
            assert(columns[c].name@ == column_name@);
            assert(operators[c]@.len() > 0);
            match g {
                TableFilter::Column { column_name: gname, operator: gop, value: gvalue } => {
                    assert(gname@ == column_name@);
                    assert(named(gname@) == named(column_name@));
                    let op = if operators[c]@.contains(operator) {
                        operator
                    } else {
                        operators[c]@[0]
                    };
                    assert(gop == op);
                    assert(operators[c]@.contains(op)) by {
                        if !operators[c]@.contains(operator) {
                            assert(operators[c]@[0] == op);
                        }
                    }
                },
                TableFilter::CustomSql { .. } => {},
            }
        },
    }
}

/// Each normalized filter is what normalizing one of the filters gave.
proof fn lemma_normalized_from(
    columns: Seq<TableColumn>,
    operators: Seq<Vec<FilterOperator>>,
    filters: Seq<TableFilter>,
    k: int,
)
    requires
        0 <= k < normalized_filters_spec(columns, operators, filters).len(),
    ensures
        exists|i: int|
            0 <= i < filters.len() && normalized_filter(columns, operators, #[trigger] filters[i])
                == Some(normalized_filters_spec(columns, operators, filters)[k]),
    decreases filters.len(),
{
    let rest = filters.drop_last();
    let r0 = normalized_filters_spec(columns, operators, rest);
    if k < r0.len() {
        lemma_normalized_from(columns, operators, rest, k);
        let i = choose|i: int|
            0 <= i < rest.len() && normalized_filter(columns, operators, #[trigger] rest[i]) == Some(
                r0[k],
            );
        assert(filters[i] == rest[i]);
    } else {
        let last = filters.len() - 1;
        assert(filters[last] == filters.last());
    }
}

/// Filters that each normalize to themselves are normalized as they are.
proof fn lemma_normalized_filters_fixed(
    columns: Seq<TableColumn>,
    operators: Seq<Vec<FilterOperator>>,
    gs: Seq<TableFilter>,
)
    requires
        forall|k: int|
            0 <= k < gs.len() ==> normalized_filter(columns, operators, #[trigger] gs[k]) == Some(
                filter_view(gs[k]),
            ),
    ensures
        normalized_filters_spec(columns, operators, gs) == filter_views(gs),
    decreases gs.len(),
{
    if gs.len() > 0 {
        let rest = gs.drop_last();
        assert forall|k: int| 0 <= k < rest.len() implies normalized_filter(
            columns,
            operators,
            #[trigger] rest[k],
        ) == Some(filter_view(rest[k])) by {
            assert(rest[k] == gs[k]);
        }
        lemma_normalized_filters_fixed(columns, operators, rest);
        assert(gs.last() == gs[gs.len() - 1]);
        assert(filter_views(gs) =~= filter_views(rest).push(filter_view(gs.last())));
    } else {
        assert(filter_views(gs) =~= Seq::<FilterView>::empty());
    }
}

/// Normalizing filters twice is normalizing them once: filters whose views
/// are what normalizing gave come out of normalizing as they went in.
pub proof fn normalizing_filters_twice_changes_nothing(
    columns: Seq<TableColumn>,
    operators: Seq<Vec<FilterOperator>>,
    filters: Seq<TableFilter>,
    normalized: Seq<TableFilter>,
)
    requires
        operators_cover(columns, operators),
        filter_views(normalized) == normalized_filters_spec(columns, operators, filters),
    ensures
        normalized_filters_spec(columns, operators, normalized) == filter_views(normalized),
{
    let views = normalized_filters_spec(columns, operators, filters);
    assert forall|k: int| 0 <= k < normalized.len() implies normalized_filter(
        columns,
        operators,
        #[trigger] normalized[k],
    ) == Some(filter_view(normalized[k])) by {
        assert(filter_views(normalized)[k] == filter_view(normalized[k]));
        lemma_normalized_from(columns, operators, filters, k);
        let i = choose|i: int|
            0 <= i < filters.len() && normalized_filter(columns, operators, #[trigger] filters[i])
                == Some(views[k]);
        lemma_normalized_filter_stays(columns, operators, filters[i], normalized[k]);
    }
    lemma_normalized_filters_fixed(columns, operators, normalized);
}

fn supports(operators: &Vec<FilterOperator>, operator: FilterOperator) -> (r: bool)
    ensures
        r == operators@.contains(operator),
{
    let mut i: usize = 0;
    while i < operators.len()
        invariant
            i <= operators@.len(),
            forall|j: int| 0 <= j < i ==> operators@[j] != operator,
        decreases operators@.len() - i,
    {
        if operators[i] == operator {
            proof {
                assert(operators@[i as int] == operator);
            }
            return true;
        }
        i = i + 1;
    }
    false
}

#[verifier::rlimit(40)]
fn normalize_filter(
    columns: &Vec<TableColumn>,
    operators: &Vec<Vec<FilterOperator>>,
    filter: &TableFilter,
) -> (r: Option<TableFilter>)
    requires
        operators_cover(columns@, operators@),
    ensures
        match r {
            Some(f) => normalized_filter(columns@, operators@, *filter) == Some(filter_view(f)),
            None => normalized_filter(columns@, operators@, *filter) is None,
        },
{
    match filter {
        TableFilter::CustomSql { expression } => Some(
            TableFilter::CustomSql { expression: expression.clone() },
        ),
        TableFilter::Column { column_name, operator, value } => {
            let c = match column_position(columns, column_name) {
                Some(c) => c,
                None => {
                    return None;
                },
            };
            let op = if supports(&operators[c], *operator) {
                *operator
            } else {
                operators[c][0]
            };
            let v = if op.needs_value {
                match value {
                    Some(v) => Some(v.clone()),
                    None => default_filter_value(&columns[c], op),
                }
            } else {
                None
            };
            Some(TableFilter::Column { column_name: columns[c].name.clone(), operator: op, value: v })
        },
    }
}

/// The filters as the panel shows them for the loaded columns.
pub fn normalize_filters(
    columns: &Vec<TableColumn>,
    operators: &Vec<Vec<FilterOperator>>,
    filters: &Vec<TableFilter>,
) -> (r: Vec<TableFilter>)
    requires
        operators_cover(columns@, operators@),
    ensures
        filter_views(r@) == normalized_filters_spec(columns@, operators@, filters@),
{
    let mut r: Vec<TableFilter> = Vec::new();
    let mut i: usize = 0;
    while i < filters.len()
        invariant
            i <= filters@.len(),
            operators_cover(columns@, operators@),
            filter_views(r@) == normalized_filters_spec(columns@, operators@, filters@.take(i as int)),
        decreases filters@.len() - i,
    {
        proof {
            assert(filters@.take(i + 1).drop_last() =~= filters@.take(i as int));
            assert(filters@.take(i + 1).last() == filters@[i as int]);
        }
        let ghost before = r@;
        match normalize_filter(columns, operators, &filters[i]) {
            Some(f) => {
                r.push(f);
                proof {
                    assert(filter_views(r@) =~= filter_views(before).push(filter_view(f)));
                }
            },
            None => {},
        }
        i = i + 1;
    }
    proof {
        assert(filters@.take(filters@.len() as int) =~= filters@);
    }
    r
}

/// Sets the value of the filter at `index`: a comparison takes it as its
/// value, custom SQL as its expression (empty for none). Other positions
/// change nothing.
pub fn update_state_value(filters: &mut Vec<TableFilter>, index: usize, value: Option<String>)
    ensures
        final(filters)@.len() == old(filters)@.len(),
        forall|j: int|
            0 <= j < old(filters)@.len() && j != index ==> #[trigger] final(filters)@[j] == old(
                filters,
            )@[j],
        index < old(filters)@.len() ==> filter_view(final(filters)@[index as int]) == (match old(
            filters,
        )@[index as int] {
            TableFilter::Column { column_name, operator, .. } => FilterView::Column {
                column_name: column_name@,
                operator,
                value: opt_chars(value),
            },
            TableFilter::CustomSql { .. } => FilterView::CustomSql {
                expression: match value {
                    Some(v) => v@,
                    None => Seq::<char>::empty(),
                },
            },
        }),
{
    if index >= filters.len() {
        return;
    }
    let updated = match &filters[index] {
        TableFilter::Column { column_name, operator, .. } => TableFilter::Column {
            column_name: column_name.clone(),
            operator: *operator,
            value,
        },
        TableFilter::CustomSql { .. } => TableFilter::CustomSql {
            expression: match value {
                Some(v) => v,
                None => String::new(),
            },
        },
    };
    filters.set(index, updated);
}

/// The operator at `selected` in the column's list was picked for the
/// comparison at `index`: the value is kept when the new operator takes one
/// (a blank value gives way to the default) and dropped otherwise. Returns
/// whether the filters changed: nothing changes for custom SQL, a column
/// that is gone, or a position past the operators.
pub fn select_filter_operator(
    filters: &mut Vec<TableFilter>,
    index: usize,
    columns: &Vec<TableColumn>,
    operators: &Vec<Vec<FilterOperator>>,
    selected: u32,
) -> (changed: bool)
    requires
        operators_cover(columns@, operators@),
    ensures
        final(filters)@.len() == old(filters)@.len(),
        forall|j: int|
            0 <= j < old(filters)@.len() && j != index ==> #[trigger] final(filters)@[j] == old(
                filters,
            )@[j],
        changed == (index < old(filters)@.len() && match old(filters)@[index as int] {
            TableFilter::Column { column_name, .. } => match first_match(
                columns@,
                named(column_name@),
            ) {
                Some(c) => (selected as int) < operators@[c]@.len(),
                None => false,
            },
            TableFilter::CustomSql { .. } => false,
        }),
        !changed ==> final(filters)@ == old(filters)@,
        changed ==> (match old(filters)@[index as int] {
            TableFilter::Column { column_name, value, .. } => {
                let c = first_match(columns@, named(column_name@))->0;
                let op = operators@[c]@[selected as int];
                filter_view(final(filters)@[index as int]) == (FilterView::Column {
                    column_name: column_name@,
                    operator: op,
                    value: if op.needs_value {
                        match value {
                            Some(v) => if v@.len() > 0 {
                                Some(v@)
                            } else {
                                default_value_spec(columns@[c], op)
                            },
                            None => default_value_spec(columns@[c], op),
                        }
                    } else {
                        None
                    },
                })
            },
            TableFilter::CustomSql { .. } => false,
        }),
{
    if index >= filters.len() {
        return false;
    }
    let updated = match &filters[index] {
        TableFilter::CustomSql { .. } => {
            return false;
        },
        TableFilter::Column { column_name, value, .. } => {
            let c = match column_position(columns, column_name) {
                Some(c) => c,
                None => {
                    return false;
                },
            };
            if selected as usize >= operators[c].len() {
                return false;
            }
            let op = operators[c][selected as usize];
            let v = if op.needs_value {
                match value {
                    Some(v) => if v.as_str().is_empty() {
                        default_filter_value(&columns[c], op)
                    } else {
                        Some(v.clone())
                    },
                    None => default_filter_value(&columns[c], op),
                }
            } else {
                None
            };
            TableFilter::Column { column_name: column_name.clone(), operator: op, value: v }
        },
    };
    filters.set(index, updated);
    true
}

/// The field at `selected` was picked for the filter at `index`: past the
/// columns it becomes an empty custom SQL filter, on a column a comparison
/// with the column's default operator and value. Other positions change
/// nothing.
pub fn select_filter_field(
    filters: &mut Vec<TableFilter>,
    index: usize,
    columns: &Vec<TableColumn>,
    operators: &Vec<Vec<FilterOperator>>,
    selected: u32,
)
    requires
        operators_cover(columns@, operators@),
    ensures
        final(filters)@.len() == old(filters)@.len(),
        forall|j: int|
            0 <= j < old(filters)@.len() && j != index ==> #[trigger] final(filters)@[j] == old(
                filters,
            )@[j],
        index < old(filters)@.len() && selected as int == columns@.len() ==> filter_view(
            final(filters)@[index as int],
        ) == (FilterView::CustomSql { expression: Seq::<char>::empty() }),
        index < old(filters)@.len() && (selected as int) < columns@.len() ==> filter_view(
            final(filters)@[index as int],
        ) == (FilterView::Column {
            column_name: columns@[selected as int].name@,
            operator: operators@[selected as int]@[0],
            value: default_value_spec(columns@[selected as int], operators@[selected as int]@[0]),
        }),
        (index >= old(filters)@.len() || selected as int > columns@.len()) ==> final(filters)@ == old(
            filters,
        )@,
{
    if index >= filters.len() {
        return;
    }
    let c = selected as usize;
    if c == columns.len() {
        filters.set(index, TableFilter::CustomSql { expression: String::new() });
    } else if c < columns.len() {
        let op = operators[c][0];
        let value = default_filter_value(&columns[c], op);
        filters.set(index, TableFilter::Column { column_name: columns[c].name.clone(), operator: op, value });
    }
}

/// Adds the initial filter for the columns, if there are any.
pub fn add_filter(
    filters: &mut Vec<TableFilter>,
    columns: &Vec<TableColumn>,
    operators: &Vec<Vec<FilterOperator>>,
)
    requires
        operators_cover(columns@, operators@),
    ensures
        columns@.len() == 0 ==> final(filters)@ == old(filters)@,
        columns@.len() > 0 ==> final(filters)@.len() == old(filters)@.len() + 1
            && final(filters)@.drop_last() == old(filters)@ && filter_view(final(filters)@.last()) == (
        FilterView::Column {
            column_name: columns@[0].name@,
            operator: operators@[0]@[0],
            value: default_value_spec(columns@[0], operators@[0]@[0]),
        }),
{
    match initial_filter(columns, operators) {
        Some(f) => {
            filters.push(f);
            proof {
                assert(final(filters)@.drop_last() =~= old(filters)@);
            }
        },
        None => {},
    }
}

/// Removes the filter at `index`, if there is one.
pub fn remove_filter(filters: &mut Vec<TableFilter>, index: usize)
    ensures
        index < old(filters)@.len() ==> final(filters)@ == old(filters)@.remove(index as int),
        index >= old(filters)@.len() ==> final(filters)@ == old(filters)@,
{
    if index < filters.len() {
        filters.remove(index);
    }
}

/// Clearing and applying are offered once there are filters to apply or
/// applied filters to clear.
pub fn filter_actions_enabled(draft_count: usize, has_active_filters: bool) -> (r: bool)
    ensures
        r == (draft_count > 0 || has_active_filters),
{
    draft_count > 0 || has_active_filters
}

/// The values offered for a comparison on `column`: `false` and `true` for
/// booleans, the enumerated values when there are any, and none (a text
/// entry) otherwise.
pub fn value_choices(column: &TableColumn) -> (r: Option<Vec<String>>)
    ensures
        column.type_group == ColumnTypeGroup::Boolean ==> (r matches Some(v) && v@.len() == 2
            && v@[0]@ == "false"@ && v@[1]@ == "true"@),
        column.type_group != ColumnTypeGroup::Boolean && column.enum_values@.len() > 0 ==> (
        r matches Some(v) && v@.len() == column.enum_values@.len() && forall|i: int|
            0 <= i < v@.len() ==> #[trigger] v@[i]@ == column.enum_values@[i]@),
        column.type_group != ColumnTypeGroup::Boolean && column.enum_values@.len() == 0 ==> r is None,
{
    if column.type_group == ColumnTypeGroup::Boolean {
        proof {
            reveal_strlit("false");
            reveal_strlit("true");
        }
        let mut v: Vec<String> = Vec::new();
        v.push("false".to_string());
        v.push("true".to_string());
        return Some(v);
    }
    if column.enum_values.len() == 0 {
        return None;
    }
    let mut v: Vec<String> = Vec::new();
    let mut i: usize = 0;
    while i < column.enum_values.len()
        invariant
            i <= column.enum_values@.len(),
            v@.len() == i,
            forall|k: int| 0 <= k < i ==> #[trigger] v@[k]@ == column.enum_values@[k]@,
        decreases column.enum_values@.len() - i,
    {
        v.push(column.enum_values[i].clone());
        i = i + 1;
    }
    Some(v)
}

/// What the filter rows report.
#[derive(Debug)]
pub enum FilterEvent {
    /// The filters were edited in a way that changes the rows.
    DraftChanged(Vec<TableFilter>),
    /// Only values were edited.
    DraftValuesChanged(Vec<TableFilter>),
    /// Apply these filters.
    Apply(Vec<TableFilter>),
    /// Drop every filter.
    Clear,
}

/// What the filter panel asks the application to do.
#[derive(Debug)]
pub enum FilterPanelAction {
    Nothing,
    /// Build the filter rows again.
    Rebuild,
    /// The filters were applied: tell the browser (`FiltersApplied` with
    /// this count).
    Applied(usize),
    /// Every filter was dropped: build the rows again and tell the browser
    /// (`FiltersCleared`).
    Cleared,
    /// Warn with this heading (a message id) and detail; nothing changed.
    Refused { heading: &'static str, detail: String },
}

/// The filters of a table browser: those being edited and those applied.
#[derive(Debug)]
pub struct FilterPanel {
    pub draft_filters: Vec<TableFilter>,
    pub active_filters: Vec<TableFilter>,
}

fn copy_filters(filters: &Vec<TableFilter>) -> (r: Vec<TableFilter>)
    ensures
        filter_views(r@) == filter_views(filters@),
{
    let mut r: Vec<TableFilter> = Vec::new();
    let mut i: usize = 0;
    while i < filters.len()
        invariant
            i <= filters@.len(),
            r@.len() == i,
            forall|j: int| 0 <= j < i ==> filter_view(#[trigger] r@[j]) == filter_view(filters@[j]),
        decreases filters@.len() - i,
    {
        let f = match &filters[i] {
            TableFilter::Column { column_name, operator, value } => TableFilter::Column {
                column_name: column_name.clone(),
                operator: *operator,
                value: match value {
                    Some(v) => Some(v.clone()),
                    None => None,
                },
            },
            TableFilter::CustomSql { expression } => TableFilter::CustomSql {
                expression: expression.clone(),
            },
        };
        r.push(f);
        i = i + 1;
    }
    proof {
        assert(filter_views(r@) =~= filter_views(filters@));
    }
    r
}

impl FilterPanel {
    /// A panel without filters.
    pub fn new() -> (r: FilterPanel)
        ensures
            r.draft_filters@.len() == 0,
            r.active_filters@.len() == 0,
    {
        FilterPanel { draft_filters: Vec::new(), active_filters: Vec::new() }
    }

    /// Drops every filter, as when another table is opened or the schema
    /// changed.
    pub fn reset(&mut self)
        ensures
            final(self).draft_filters@.len() == 0,
            final(self).active_filters@.len() == 0,
    {
        self.draft_filters = Vec::new();
        self.active_filters = Vec::new();
    }

    /// Whether filters are applied.
    pub fn has_active_filters(&self) -> (r: bool)
        ensures
            r == (self.active_filters@.len() > 0),
    {
        self.active_filters.len() > 0
    }

    /// Takes a report of the filter rows. Filters are applied only when none
    /// is incomplete; then they become both the applied and the edited ones.
    pub fn update(&mut self, event: FilterEvent) -> (a: FilterPanelAction)
        ensures
            match event {
                FilterEvent::DraftChanged(filters) => a is Rebuild && final(self).draft_filters
                    == filters && final(self).active_filters == old(self).active_filters,
                FilterEvent::DraftValuesChanged(filters) => a is Nothing && final(self).draft_filters
                    == filters && final(self).active_filters == old(self).active_filters,
                FilterEvent::Apply(filters) => if forall|i: int|
                    0 <= i < filters@.len() ==> !incomplete(#[trigger] filters@[i]) {
                    &&& a == FilterPanelAction::Applied(filters@.len() as usize)
                    &&& final(self).active_filters == filters
                    &&& filter_views(final(self).draft_filters@) == filter_views(filters@)
                } else {
                    &&& a matches FilterPanelAction::Refused { heading, .. } && heading@
                        == "Filter cannot be applied"@
                    &&& *final(self) == *old(self)
                },
                FilterEvent::Clear => a is Cleared && final(self).draft_filters@.len() == 0
                    && final(self).active_filters@.len() == 0,
            },
    {
        match event {
            FilterEvent::DraftChanged(filters) => {
                self.draft_filters = filters;
                FilterPanelAction::Rebuild
            },
            FilterEvent::DraftValuesChanged(filters) => {
                self.draft_filters = filters;
                FilterPanelAction::Nothing
            },
            FilterEvent::Apply(filters) => match validate_filter_values(&filters) {
                Err(detail) => FilterPanelAction::Refused { heading: "Filter cannot be applied", detail },
                Ok(()) => {
                    let count = filters.len();
                    self.draft_filters = copy_filters(&filters);
                    self.active_filters = filters;
                    FilterPanelAction::Applied(count)
                },
            },
            FilterEvent::Clear => {
                self.draft_filters = Vec::new();
                self.active_filters = Vec::new();
                FilterPanelAction::Cleared
            },
        }
    }

    /// Opening the panel on a table without any filter starts one on the
    /// first column; returns whether it did (and the rows must be built).
    pub fn start_first_filter(
        &mut self,
        columns: &Vec<TableColumn>,
        operators: &Vec<Vec<FilterOperator>>,
    ) -> (added: bool)
        requires
            operators_cover(columns@, operators@),
        ensures
            added == (old(self).draft_filters@.len() == 0 && old(self).active_filters@.len() == 0
                && columns@.len() > 0),
            final(self).active_filters == old(self).active_filters,
            !added ==> final(self).draft_filters == old(self).draft_filters,
            added ==> final(self).draft_filters@.len() == 1 && filter_view(
                final(self).draft_filters@[0],
            ) == (FilterView::Column {
                column_name: columns@[0].name@,
                operator: operators@[0]@[0],
                value: default_value_spec(columns@[0], operators@[0]@[0]),
            }),
    {
        if self.draft_filters.len() > 0 || self.active_filters.len() > 0 {
            return false;
        }
        match initial_filter(columns, operators) {
            Some(f) => {
                self.draft_filters.push(f);
                true
            },
            None => false,
        }
    }
}

} // verus!
